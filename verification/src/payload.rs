//! Wire format of batches posted to L1, and the decisions made around
//! posting and scanning them.
//!
//! A posted batch is `block_count`, `first_block` and `last_block` as
//! little-endian `u64`s, followed by the compressed batch data.

use vstd::prelude::*;
use vstd::bytes::{spec_u64_to_le_bytes, spec_u64_from_le_bytes, u64_to_le_bytes, u64_from_le_bytes, lemma_auto_spec_u64_to_from_le_bytes};
use alloy::consensus::{BlobTransactionSidecar, SidecarBuilder, SimpleCoder};
use crate::pipeline::{CompressedBatch, SinkError, SubmissionReceipt};
use crate::text::join2;
use crate::text::{decimal, join4, usize_decimal};

verus! {

/// Length of the metadata header that precedes the batch data.
pub const HEADER_LEN: usize = 24;

/// The bytes posted for a batch: its metadata header, then its data.
pub open spec fn encoded_payload(batch: CompressedBatch) -> Seq<u8> {
    spec_u64_to_le_bytes(batch.block_count) + spec_u64_to_le_bytes(batch.first_block)
        + spec_u64_to_le_bytes(batch.last_block) + batch.data@
}

/// The batch read back from posted bytes under the given batch number. Input
/// shorter than the header is taken as legacy data: one block, block numbers
/// zero, and the whole input as data.
pub open spec fn decoded_payload(batch_number: u64, input: Seq<u8>) -> (u64, u64, u64, Seq<u8>) {
    if input.len() >= 24 {
        (
            spec_u64_from_le_bytes(input.subrange(0, 8)),
            spec_u64_from_le_bytes(input.subrange(8, 16)),
            spec_u64_from_le_bytes(input.subrange(16, 24)),
            input.subrange(24, input.len() as int),
        )
    } else {
        (1, 0, 0, input)
    }
}

/// Encodes a batch for posting: `block_count`, `first_block` and
/// `last_block` as little-endian `u64`s, followed by the batch data.
pub fn encode_batch_payload(batch: &CompressedBatch) -> (out: Vec<u8>)
    ensures
        out@ == encoded_payload(*batch),
{
    let mut out: Vec<u8> = Vec::new();
    let a = u64_to_le_bytes(batch.block_count);
    let b = u64_to_le_bytes(batch.first_block);
    let c = u64_to_le_bytes(batch.last_block);
    out.extend_from_slice(a.as_slice());
    out.extend_from_slice(b.as_slice());
    out.extend_from_slice(c.as_slice());
    out.extend_from_slice(batch.data.as_slice());
    assert(out@ =~= encoded_payload(*batch));
    out
}

/// Reads a posted batch back, numbering it `batch_number`. Input of at
/// least 24 bytes is split into the metadata header and the data; shorter
/// input is legacy data with one block and block numbers zero.
pub fn decode_batch_payload(batch_number: u64, input: &[u8]) -> (batch: CompressedBatch)
    ensures
        batch.batch_number == batch_number,
        (batch.block_count, batch.first_block, batch.last_block, batch.data@)
            == decoded_payload(batch_number, input@),
{
    if input.len() >= HEADER_LEN {
        let block_count: u64 = u64_from_le_bytes(slice_range(input, 0, 8).as_slice());
        let first_block: u64 = u64_from_le_bytes(slice_range(input, 8, 16).as_slice());
        let last_block: u64 = u64_from_le_bytes(slice_range(input, 16, 24).as_slice());
        let data = slice_range(input, 24, input.len());
        CompressedBatch { batch_number, data, block_count, first_block, last_block }
    } else {
        let data = slice_range(input, 0, input.len());
        assert(data@ =~= input@);
        CompressedBatch { batch_number, data, block_count: 1, first_block: 0, last_block: 0 }
    }
}

/// Copies `input[from..to]` into a vector.
fn slice_range(input: &[u8], from: usize, to: usize) -> (out: Vec<u8>)
    requires
        from <= to <= input@.len(),
    ensures
        out@ == input@.subrange(from as int, to as int),
{
    let mut out: Vec<u8> = Vec::new();
    let mut i: usize = from;
    while i < to
        invariant
            from <= i <= to <= input@.len(),
            out@ == input@.subrange(from as int, i as int),
        decreases to - i,
    {
        out.push(input[i]);
        assert(out@ =~= input@.subrange(from as int, i + 1));
        i += 1;
    }
    out
}

/// Reading back what was posted gives the posted batch, under the number the
/// reader assigns.
pub proof fn law_payload_roundtrip(batch: CompressedBatch, batch_number: u64)
    ensures
        decoded_payload(batch_number, encoded_payload(batch))
            == (batch.block_count, batch.first_block, batch.last_block, batch.data@),
{
    lemma_auto_spec_u64_to_from_le_bytes();
    let e = encoded_payload(batch);
    let a = spec_u64_to_le_bytes(batch.block_count);
    let b = spec_u64_to_le_bytes(batch.first_block);
    let c = spec_u64_to_le_bytes(batch.last_block);
    assert(e.subrange(0, 8) =~= a);
    assert(e.subrange(8, 16) =~= b);
    assert(e.subrange(16, 24) =~= c);
    assert(e.subrange(24, e.len() as int) =~= batch.data@);
}


/// Usable bytes per blob: 4096 field elements of 31 data bytes each.
pub const USABLE_BYTES_PER_BLOB: usize = 126976;

/// Maximum calldata size that fits within the calldata gas limit.
pub const MAX_CALLDATA_SIZE: usize = 1_200_000;

/// Maximum gas limit for calldata transactions.
pub const MAX_CALLDATA_GAS_LIMIT: u64 = 25_000_000;

/// alloy's `MAX_BLOBS_PER_BLOCK_DENCUN`: the Dencun limit of six blobs per
/// block (786432 blob gas per block over 131072 per blob).
#[verifier::external_body]
fn max_blobs_per_block() -> (n: usize)
    ensures
        n == 6,
{
    alloy::eips::eip4844::MAX_BLOBS_PER_BLOCK_DENCUN
}

/// Number of blobs needed for `len` bytes, rounding up.
pub open spec fn blobs_needed(len: nat) -> nat {
    ((len + USABLE_BYTES_PER_BLOB - 1) / (USABLE_BYTES_PER_BLOB as int)) as nat
}

/// Maximum fee per blob gas offered for a posted batch: 1 gwei.
pub const BLOB_FEE_CAP_WEI: u128 = 1_000_000_000;

/// The sidecar alloy's `SidecarBuilder::<SimpleCoder>` builds for `data`
/// with its built-in trusted setup, or `None` where building fails: a
/// function of the data alone.
pub uninterp spec fn kzg_sidecar(data: Seq<u8>) -> Option<BlobTransactionSidecar>;

/// alloy's `SidecarBuilder::<SimpleCoder>::from_slice(data).build()`:
/// encodes the data into blobs and computes their KZG commitments and
/// proofs with the built-in trusted setup. The sidecar is the one named by
/// `kzg_sidecar`; an error, handed back as its text, comes where that name
/// is `None`.
#[verifier::external_body]
fn build_blob_sidecar(data: &[u8]) -> (r: Result<BlobTransactionSidecar, String>)
    requires
        data@.len() > 0,
        blobs_needed(data@.len()) <= 6,
    ensures
        match r {
            Ok(s) => kzg_sidecar(data@) == Some(s),
            Err(_) => kzg_sidecar(data@) is None,
        },
{
    match SidecarBuilder::<SimpleCoder>::from_slice(data).build() {
        Ok(sidecar) => Ok(sidecar),
        Err(e) => Err(e.to_string()),
    }
}

/// The blob sidecar for posting `data`: empty data is refused, data needing
/// more than six blobs gives `None` so the caller falls back to calldata,
/// and otherwise it is the KZG sidecar of the data, or the KZG error is
/// reported.
pub fn create_blob_sidecar(data: &[u8]) -> (r: Result<Option<BlobTransactionSidecar>, SinkError>)
    ensures
        data@.len() == 0 ==> (r matches Err(SinkError::TxFailed(m)) && m@ == "Empty data for blob"@),
        data@.len() > 0 && blobs_needed(data@.len()) > 6 ==> r matches Ok(None),
        data@.len() > 0 && blobs_needed(data@.len()) <= 6 ==> match kzg_sidecar(data@) {
            Some(s) => r == Ok::<Option<BlobTransactionSidecar>, SinkError>(Some(s)),
            None => r matches Err(SinkError::TxFailed(m)) && "Failed to build blob sidecar with KZG: "@.is_prefix_of(
                m@,
            ),
        },
{
    if data.len() == 0 {
        return Err(SinkError::TxFailed(String::from_str("Empty data for blob")));
    }
    let len: usize = data.len();
    let num_blobs: usize = len / USABLE_BYTES_PER_BLOB + if len % USABLE_BYTES_PER_BLOB == 0 { 0 } else { 1 };
    assert(num_blobs == blobs_needed(len as nat));
    if num_blobs > max_blobs_per_block() {
        return Ok(None);
    }
    match build_blob_sidecar(data) {
        Ok(sidecar) => Ok(Some(sidecar)),
        Err(e) => {
            let msg = join2("Failed to build blob sidecar with KZG: ", e.as_str());
            Err(SinkError::TxFailed(msg))
        },
    }
}

/// How a posted batch is to be sent.
#[derive(Clone, Debug, PartialEq, Eq)]
pub enum SubmissionPlan {
    /// A blob transaction carrying the payload as blobs (and as calldata).
    Blob,
    /// A calldata transaction with the given gas limit, used when the payload
    /// is too large for blobs.
    CalldataFallback {
        /// Gas limit of the transaction.
        gas_limit: u64,
    },
    /// A plain calldata transaction whose gas is estimated by the node.
    Calldata,
}

/// The gas limit of a fallback calldata transaction: 21000 plus 16 per byte,
/// capped at [`MAX_CALLDATA_GAS_LIMIT`].
pub open spec fn fallback_gas_limit(len: nat) -> int {
    let estimated: int = 21_000 + (len as int) * 16;
    if estimated <= MAX_CALLDATA_GAS_LIMIT { estimated } else { MAX_CALLDATA_GAS_LIMIT as int }
}

/// Chooses how to send a payload of `len` bytes. In blob mode an empty
/// payload is refused, a payload needing more than six blobs falls back to
/// calldata with an explicit gas limit, and a payload also above
/// [`MAX_CALLDATA_SIZE`] is refused; without blob mode the payload goes as
/// calldata.
pub fn plan_submission(len: usize, use_blobs: bool) -> (r: Result<SubmissionPlan, SinkError>)
    ensures
        !use_blobs ==> r == Ok::<SubmissionPlan, SinkError>(SubmissionPlan::Calldata),
        use_blobs && len == 0 ==> (r matches Err(SinkError::TxFailed(m)) && m@ == "Empty data for blob"@),
        use_blobs && len > 0 && blobs_needed(len as nat) <= 6 ==> r == Ok::<SubmissionPlan, SinkError>(
            SubmissionPlan::Blob,
        ),
        use_blobs && len > 0 && blobs_needed(len as nat) > 6 && len > MAX_CALLDATA_SIZE ==> (r matches Err(
            SinkError::TxFailed(m),
        ) && m@ == "Batch too large for both blobs and calldata: "@ + decimal(len as nat)
            + " bytes exceeds "@ + decimal(MAX_CALLDATA_SIZE as nat) + " limit"@),
        use_blobs && len > 0 && blobs_needed(len as nat) > 6 && len <= MAX_CALLDATA_SIZE ==> r
            == Ok::<SubmissionPlan, SinkError>(
            SubmissionPlan::CalldataFallback { gas_limit: fallback_gas_limit(len as nat) as u64 },
        ),
{
    if !use_blobs {
        return Ok(SubmissionPlan::Calldata);
    }
    if len == 0 {
        return Err(SinkError::TxFailed(String::from_str("Empty data for blob")));
    }
    let num_blobs: usize = len / USABLE_BYTES_PER_BLOB + if len % USABLE_BYTES_PER_BLOB == 0 { 0 } else { 1 };
    assert(num_blobs == blobs_needed(len as nat));
    if num_blobs > max_blobs_per_block() {
        if len > MAX_CALLDATA_SIZE {
            let mut msg = join4(
                "Batch too large for both blobs and calldata: ",
                usize_decimal(len).as_str(),
                " bytes exceeds ",
                usize_decimal(MAX_CALLDATA_SIZE).as_str(),
            );
            msg.append(" limit");
            return Err(SinkError::TxFailed(msg));
        }
        let estimated_gas: u64 = 21_000u64 + (len as u64 * 16);
        let gas_limit: u64 = if estimated_gas <= MAX_CALLDATA_GAS_LIMIT { estimated_gas } else { MAX_CALLDATA_GAS_LIMIT };
        Ok(SubmissionPlan::CalldataFallback { gas_limit })
    } else {
        Ok(SubmissionPlan::Blob)
    }
}

/// What the sink sends for a batch, apart from the addresses: the posted
/// bytes as calldata, a gas limit where one is fixed, and for a blob
/// transaction the sidecar and the blob fee cap.
#[derive(Clone, Debug)]
pub struct SinkTxRequest {
    /// The posted bytes, sent as calldata.
    pub input: Vec<u8>,
    /// Gas limit; left for the node to estimate when absent.
    pub gas_limit: Option<u64>,
    /// Blob sidecar of a blob transaction.
    pub blob_sidecar: Option<BlobTransactionSidecar>,
    /// Maximum fee per blob gas of a blob transaction.
    pub max_fee_per_blob_gas: Option<u128>,
}

/// The transaction the sink sends for `batch`: the posted bytes as
/// calldata, and as planned by [`plan_submission`] either nothing more, a
/// fixed gas limit for the calldata fallback, or the KZG sidecar of the
/// posted bytes with the blob fee cap. Refusals of the plan and of the
/// sidecar are passed on.
pub fn sink_request(batch: &CompressedBatch, use_blobs: bool) -> (r: Result<SinkTxRequest, SinkError>)
    ensures
        r matches Ok(q) ==> q.input@ == encoded_payload(*batch),
        !use_blobs ==> (r matches Ok(q) && q.gas_limit is None && q.blob_sidecar is None
            && q.max_fee_per_blob_gas is None),
        ({
            let len = encoded_payload(*batch).len();
            &&& use_blobs && len == 0 ==> (r matches Err(SinkError::TxFailed(m)) && m@ == "Empty data for blob"@)
            &&& use_blobs && len > 0 && blobs_needed(len) <= 6 ==> match kzg_sidecar(encoded_payload(*batch)) {
                Some(s) => r matches Ok(q) && q.blob_sidecar == Some(s) && q.max_fee_per_blob_gas == Some(
                    BLOB_FEE_CAP_WEI,
                ) && q.gas_limit is None,
                None => r matches Err(SinkError::TxFailed(m))
                    && "Failed to build blob sidecar with KZG: "@.is_prefix_of(m@),
            }
            &&& use_blobs && len > 0 && blobs_needed(len) > 6 && len <= MAX_CALLDATA_SIZE ==> (r matches Ok(q)
                && q.gas_limit == Some(fallback_gas_limit(len) as u64) && q.blob_sidecar is None
                && q.max_fee_per_blob_gas is None)
            &&& use_blobs && len > 0 && blobs_needed(len) > 6 && len > MAX_CALLDATA_SIZE ==> (r matches Err(
                SinkError::TxFailed(m),
            ) && m@ == "Batch too large for both blobs and calldata: "@ + decimal(len) + " bytes exceeds "@
                + decimal(MAX_CALLDATA_SIZE as nat) + " limit"@)
        }),
{
    let encoded = encode_batch_payload(batch);
    let plan = match plan_submission(encoded.len(), use_blobs) {
        Ok(p) => p,
        Err(e) => {
            return Err(e);
        },
    };
    match plan {
        SubmissionPlan::Calldata => Ok(
            SinkTxRequest { input: encoded, gas_limit: None, blob_sidecar: None, max_fee_per_blob_gas: None },
        ),
        SubmissionPlan::CalldataFallback { gas_limit } => Ok(
            SinkTxRequest { input: encoded, gas_limit: Some(gas_limit), blob_sidecar: None, max_fee_per_blob_gas: None },
        ),
        SubmissionPlan::Blob => {
            match create_blob_sidecar(encoded.as_slice()) {
                Ok(Some(sidecar)) => Ok(
                    SinkTxRequest {
                        input: encoded,
                        gas_limit: None,
                        blob_sidecar: Some(sidecar),
                        max_fee_per_blob_gas: Some(BLOB_FEE_CAP_WEI),
                    },
                ),
                Ok(None) => Err(SinkError::TxFailed(String::from_str("Batch too large for blobs"))),
                Err(e) => Err(e),
            }
        },
    }
}

/// Whether a transaction sent to `to` is a batch posted to `inbox`: its
/// recipient is the inbox.
pub fn is_inbox_tx(to: Option<[u8; 20]>, inbox: &[u8; 20]) -> (r: bool)
    ensures
        r == (to == Some(*inbox)),
{
    match to {
        Some(addr) => address_eq(&addr, inbox),
        None => false,
    }
}

/// Whether two addresses are equal.
fn address_eq(a: &[u8; 20], b: &[u8; 20]) -> (r: bool)
    ensures
        r == (*a == *b),
{
    let mut i: usize = 0;
    while i < 20
        invariant
            i <= 20,
            forall|k: int| 0 <= k < i ==> a@[k] == b@[k],
        decreases 20 - i,
    {
        if a[i] != b[i] {
            return false;
        }
        i += 1;
    }
    assert(a@ =~= b@);
    assert(*a == *b) by {
        vstd::array::axiom_array_ext_equal(*a, *b);
    }
    true
}

/// The receipt of a posted batch; a receipt without a block number records
/// block zero.
pub fn submission_receipt(batch_number: u64, tx_hash: [u8; 32], block_number: Option<u64>) -> (r: SubmissionReceipt)
    ensures
        r.batch_number == batch_number,
        r.tx_hash == tx_hash,
        r.l1_block == match block_number { Some(n) => n, None => 0 },
        r.blob_hash is None,
{
    let l1_block: u64 = match block_number {
        Some(n) => n,
        None => 0,
    };
    SubmissionReceipt { batch_number, tx_hash, l1_block, blob_hash: None }
}

/// Progress of scanning L1 blocks for posted batches. Scanning resumes
/// inside a block: after a batch is found at some transaction of a block,
/// the next scan starts at the following transaction of that block.
#[derive(Clone, Debug, PartialEq, Eq)]
pub struct BatchScanState {
    /// Last L1 block whose scan is complete.
    pub last_scanned_block: u64,
    /// Number of transactions of block `last_scanned_block + 1` already
    /// looked at.
    pub next_tx_index: u64,
    /// Number given to the next batch found.
    pub next_batch_number: u64,
}

impl BatchScanState {
    /// Where the scan of `block_number` starts: after the transactions
    /// already looked at in the block being scanned, at the start otherwise.
    pub open spec fn start_index_spec(&self, block_number: u64) -> u64 {
        if block_number == self.last_scanned_block + 1 { self.next_tx_index } else { 0 }
    }

    /// Nothing scanned; the first batch found is numbered 1.
    pub fn new() -> (s: BatchScanState)
        ensures
            s.last_scanned_block == 0,
            s.next_tx_index == 0,
            s.next_batch_number == 1,
    {
        BatchScanState { last_scanned_block: 0, next_tx_index: 0, next_batch_number: 1 }
    }

    /// The inclusive range of L1 blocks to scan when the head is `head`, or
    /// `None` when nothing new is there.
    pub fn blocks_to_scan(&self, head: u64) -> (r: Option<(u64, u64)>)
        ensures
            head <= self.last_scanned_block ==> r is None,
            head > self.last_scanned_block ==> r == Some(((self.last_scanned_block + 1) as u64, head)),
    {
        if head <= self.last_scanned_block {
            None
        } else {
            Some((self.last_scanned_block + 1, head))
        }
    }

    /// The index of the first transaction of `block_number` still to look at.
    pub fn start_index(&self, block_number: u64) -> (i: u64)
        ensures
            i == self.start_index_spec(block_number),
    {
        if self.last_scanned_block < u64::MAX && block_number == self.last_scanned_block + 1 {
            self.next_tx_index
        } else {
            0
        }
    }

    /// Records a batch transaction found at index `tx_index` of
    /// `block_number`, a block not yet fully scanned: the batch gets the next
    /// number, the blocks before it count as scanned, and the next scan
    /// resumes at the following transaction of the same block. Numbering past
    /// `u64::MAX` overflows and is ruled out.
    pub fn on_batch_found(&mut self, block_number: u64, tx_index: u64, input: &[u8]) -> (batch: CompressedBatch)
        requires
            old(self).next_batch_number < u64::MAX,
            old(self).last_scanned_block < block_number,
            tx_index < u64::MAX,
        ensures
            final(self).next_batch_number == old(self).next_batch_number + 1,
            final(self).last_scanned_block == block_number - 1,
            final(self).next_tx_index == tx_index + 1,
            final(self).start_index_spec(block_number) == tx_index + 1,
            batch.batch_number == old(self).next_batch_number,
            (batch.block_count, batch.first_block, batch.last_block, batch.data@)
                == decoded_payload(old(self).next_batch_number, input@),
    {
        let batch_number: u64 = self.next_batch_number;
        self.next_batch_number = self.next_batch_number + 1;
        self.last_scanned_block = block_number - 1;
        self.next_tx_index = tx_index + 1;
        decode_batch_payload(batch_number, input)
    }

    /// Records that `block_number` holds no further batch: its scan is
    /// complete and the next block starts at its first transaction.
    pub fn on_block_scanned(&mut self, block_number: u64)
        ensures
            final(self).last_scanned_block == block_number,
            final(self).next_tx_index == 0,
            final(self).next_batch_number == old(self).next_batch_number,
    {
        self.last_scanned_block = block_number;
        self.next_tx_index = 0;
    }
}

/// Where a scan stands: the block and the index of the first transaction
/// not yet looked at.
pub open spec fn scan_position(s: BatchScanState) -> (int, int) {
    (s.last_scanned_block + 1, s.next_tx_index as int)
}

/// Whether position `a` comes before position `b` in chain order: an
/// earlier block, or the same block and an earlier transaction.
pub open spec fn position_before(a: (int, int), b: (int, int)) -> bool {
    a.0 < b.0 || (a.0 == b.0 && a.1 < b.1)
}

/// Each inbox transaction is read once, in chain order: a transaction
/// found at or after the scan position leaves the position just past it,
/// so the position only moves forward and no later scan reaches that
/// transaction again; the batch found gets the next number.
pub proof fn law_scan_reads_each_transaction_once(
    before: BatchScanState,
    after: BatchScanState,
    block_number: u64,
    tx_index: u64,
)
    requires
        before.last_scanned_block < block_number,
        !position_before((block_number as int, tx_index as int), scan_position(before)),
        after.last_scanned_block == block_number - 1,
        after.next_tx_index == tx_index + 1,
        after.next_batch_number == before.next_batch_number + 1,
    ensures
        position_before((block_number as int, tx_index as int), scan_position(after)),
        position_before(scan_position(before), scan_position(after)),
        after.next_batch_number == before.next_batch_number + 1,
{
}

/// Finishing a block at or past the scan position moves the position to the
/// start of the following block, past every transaction of that block.
pub proof fn law_scan_moves_past_finished_block(before: BatchScanState, after: BatchScanState, block_number: u64, tx_index: u64)
    requires
        before.last_scanned_block < block_number,
        after.last_scanned_block == block_number,
        after.next_tx_index == 0,
    ensures
        position_before((block_number as int, tx_index as int), scan_position(after)),
        position_before(scan_position(before), scan_position(after)),
{
}

/// Scanning resumes within a block: after a batch found at transaction
/// `tx_index` of `block_number`, a head at or past that block brings the same
/// block back into range, starting at the following transaction.
pub proof fn law_scan_resumes_after_found_transaction(s: BatchScanState, block_number: u64, tx_index: u64, head: u64)
    requires
        s.last_scanned_block == block_number - 1,
        s.next_tx_index == tx_index + 1,
        head >= block_number,
    ensures
        head > s.last_scanned_block,
        s.last_scanned_block + 1 == block_number,
        s.start_index_spec(block_number) == tx_index + 1,
{
}

} // verus!
