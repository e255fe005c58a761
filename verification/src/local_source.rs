//! A batch source that serves L2 blocks held in memory (read from a local
//! JSON file by the application), with their transactions hex-encoded.

use vstd::prelude::*;
use vstd::string::StringSliceAdditionalSpecFns;
use vstd::utf8::{encode_utf8, is_continuation_byte};
use crate::pipeline::{L2BlockData, SourceError, Bytes};

verus! {

/// A raw transaction as written in the source file.
#[derive(Clone, Debug)]
pub struct JsonTransaction {
    /// Hex-encoded transaction data.
    pub data: String,
}

/// An L2 block as written in the source file.
#[derive(Clone, Debug)]
pub struct JsonBlock {
    /// Block timestamp.
    pub timestamp: u64,
    /// Block transactions.
    pub transactions: Vec<JsonTransaction>,
}

/// The contents of a source file.
#[derive(Clone, Debug)]
pub struct JsonSourceData {
    /// L2 blocks to process.
    pub blocks: Vec<JsonBlock>,
}

/// The value of an ASCII hex digit (either case).
pub open spec fn hex_digit(b: u8) -> Option<u8> {
    if 48 <= b <= 57 {
        Some((b - 48) as u8)
    } else if 97 <= b <= 102 {
        Some((b - 87) as u8)
    } else if 65 <= b <= 70 {
        Some((b - 55) as u8)
    } else {
        None
    }
}

/// The ASCII hex digits `0123456789abcdef`, by value.
pub open spec fn lower_hex_alphabet() -> Seq<u8> {
    seq![48u8, 49, 50, 51, 52, 53, 54, 55, 56, 57, 97, 98, 99, 100, 101, 102]
}

/// The ASCII hex digits `0123456789ABCDEF`, by value.
pub open spec fn upper_hex_alphabet() -> Seq<u8> {
    seq![48u8, 49, 50, 51, 52, 53, 54, 55, 56, 57, 65, 66, 67, 68, 69, 70]
}

/// Hex digits are read as radix 16 reads them: each digit of either
/// alphabet stands for its position in it, and no other byte is a digit.
pub proof fn law_hex_digit_is_radix_16(b: u8, v: int)
    ensures
        0 <= v < 16 ==> hex_digit(lower_hex_alphabet()[v]) == Some(v as u8),
        0 <= v < 16 ==> hex_digit(upper_hex_alphabet()[v]) == Some(v as u8),
        !lower_hex_alphabet().contains(b) && !upper_hex_alphabet().contains(b) ==> hex_digit(b) is None,
{
    let lo = lower_hex_alphabet();
    let up = upper_hex_alphabet();
    assert(lo[0] == 48 && lo[1] == 49 && lo[2] == 50 && lo[3] == 51 && lo[4] == 52 && lo[5] == 53);
    assert(lo[6] == 54 && lo[7] == 55 && lo[8] == 56 && lo[9] == 57 && lo[10] == 97 && lo[11] == 98);
    assert(lo[12] == 99 && lo[13] == 100 && lo[14] == 101 && lo[15] == 102);
    assert(up[0] == 48 && up[1] == 49 && up[2] == 50 && up[3] == 51 && up[4] == 52 && up[5] == 53);
    assert(up[6] == 54 && up[7] == 55 && up[8] == 56 && up[9] == 57 && up[10] == 65 && up[11] == 66);
    assert(up[12] == 67 && up[13] == 68 && up[14] == 69 && up[15] == 70);
    if !lo.contains(b) && !up.contains(b) {
        if 48 <= b <= 57 {
            assert(lo[b - 48] == b);
        } else if 97 <= b <= 102 {
            assert(lo[b - 87] == b);
        } else if 65 <= b <= 70 {
            assert(up[b - 55] == b);
        }
    }
}

/// Every byte reads back from its two-digit hex rendering, in either case:
/// the high digit then the low digit parse to the byte.
pub proof fn law_hex_pair_reads_back_rendering(x: u8)
    ensures
        hex_pair(lower_hex_alphabet()[x as int / 16], lower_hex_alphabet()[x as int % 16]) == Some(x),
        hex_pair(upper_hex_alphabet()[x as int / 16], upper_hex_alphabet()[x as int % 16]) == Some(x),
{
    let h: int = x as int / 16;
    let l: int = x as int % 16;
    law_hex_digit_is_radix_16(0, h);
    law_hex_digit_is_radix_16(0, l);
    assert(lower_hex_alphabet()[h] != 43);
    assert(upper_hex_alphabet()[h] != 43);
    assert(h * 16 + l == x);
}

/// `u8::from_str_radix(chunk, 16)` for a two-byte chunk: two hex digits, or
/// a `+` sign followed by one hex digit.
pub open spec fn hex_pair(c0: u8, c1: u8) -> Option<u8> {
    if c0 == 43 {
        hex_digit(c1)
    } else {
        match (hex_digit(c0), hex_digit(c1)) {
            (Some(h), Some(l)) => Some((h * 16 + l) as u8),
            _ => None,
        }
    }
}

/// Whether byte offset `k` is a character boundary of the UTF-8 bytes `s`.
pub open spec fn boundary(s: Seq<u8>, k: int) -> bool {
    k == s.len() || (0 <= k < s.len() && !is_continuation_byte(s[k]))
}

/// The hex digits of a string's bytes, without a leading `0x`.
pub open spec fn hex_body(s: Seq<u8>) -> Seq<u8> {
    if s.len() >= 2 && s[0] == 48 && s[1] == 120 { s.skip(2) } else { s }
}

/// How parsing hex digits two at a time from offset `i` ends.
#[derive(Clone, Copy, Debug, PartialEq, Eq)]
pub enum HexScan {
    /// Every chunk parsed.
    Parsed,
    /// A chunk is not a hex byte.
    Invalid,
    /// A chunk runs past the end or splits a character: slicing panics.
    Panics,
}

/// Parsing `s` two bytes at a time from offset `i`: the first chunk that
/// cannot be sliced panics, the first chunk that does not parse is an error.
pub open spec fn hex_scan(s: Seq<u8>, i: int) -> HexScan
    decreases s.len() - i,
{
    if i >= s.len() {
        HexScan::Parsed
    } else if i < 0 || i + 2 > s.len() || !boundary(s, i) || !boundary(s, i + 2) {
        HexScan::Panics
    } else if hex_pair(s[i], s[i + 1]) is None {
        HexScan::Invalid
    } else {
        hex_scan(s, i + 2)
    }
}

/// The `k`-th two-byte chunk of `s`, parsed.
pub open spec fn pair_at(s: Seq<u8>, k: int) -> Option<u8> {
    hex_pair(s[2 * k], s[2 * k + 1])
}

/// The bytes two hex digits at a time stand for.
pub open spec fn hex_decoded(s: Seq<u8>) -> Seq<u8> {
    Seq::new(s.len() / 2, |k: int| pair_at(s, k).unwrap())
}

/// How decoding the UTF-8 bytes of a hex string ends.
pub open spec fn bytes_scan(b: Seq<u8>) -> HexScan {
    hex_scan(hex_body(b), 0)
}

/// Whether decoding a hex string panics: an odd number of digits, or a
/// chunk that splits a character, reached before any invalid chunk.
pub open spec fn hex_panics(hex: &str) -> bool {
    bytes_scan(hex.spec_bytes()) == HexScan::Panics
}

/// Whether a hex string decodes.
pub open spec fn hex_valid(hex: &str) -> bool {
    bytes_scan(hex.spec_bytes()) == HexScan::Parsed
}

/// How decoding a transaction's data ends.
pub open spec fn tx_scan(tx: JsonTransaction) -> HexScan {
    bytes_scan(encode_utf8(tx.data@))
}

/// The bytes a transaction's data decodes to.
pub open spec fn tx_decoded(tx: JsonTransaction) -> Seq<u8> {
    hex_decoded(hex_body(encode_utf8(tx.data@)))
}

/// Every transaction of the block decodes.
pub open spec fn block_parsed(b: JsonBlock) -> bool {
    forall|t: int| 0 <= t < b.transactions@.len() ==> tx_scan(#[trigger] b.transactions@[t]) == HexScan::Parsed
}

/// Decoding the block's transactions in order reaches one that panics before
/// any invalid one.
#[verifier::opaque]
pub open spec fn block_panics(b: JsonBlock) -> bool {
    exists|t: int|
        0 <= t < b.transactions@.len() && tx_scan(#[trigger] b.transactions@[t]) == HexScan::Panics
            && forall|u: int| 0 <= u < t ==> tx_scan(#[trigger] b.transactions@[u]) == HexScan::Parsed
}

/// Every transaction of every block decodes.
pub open spec fn source_parsed(blocks: Seq<JsonBlock>) -> bool {
    forall|k: int| 0 <= k < blocks.len() ==> block_parsed(#[trigger] blocks[k])
}

/// Decoding the blocks in order reaches a transaction that panics before any
/// invalid one.
#[verifier::opaque]
pub open spec fn source_panics(blocks: Seq<JsonBlock>) -> bool {
    exists|k: int|
        0 <= k < blocks.len() && block_panics(#[trigger] blocks[k])
            && forall|j: int| 0 <= j < k ==> block_parsed(#[trigger] blocks[j])
}

/// `out` is `blocks` with every transaction decoded.
pub open spec fn decoded_blocks(blocks: Seq<JsonBlock>, out: Seq<L2BlockData>) -> bool {
    &&& out.len() == blocks.len()
    &&& forall|k: int| 0 <= k < blocks.len() ==> decoded_block(#[trigger] blocks[k], out[k])
}

/// `out` is the block `b` with every transaction decoded.
pub open spec fn decoded_block(b: JsonBlock, out: L2BlockData) -> bool {
    &&& out.timestamp == b.timestamp
    &&& out.transactions@.len() == b.transactions@.len()
    &&& forall|t: int| 0 <= t < b.transactions@.len() ==>
            (#[trigger] out.transactions@[t])@ == tx_decoded(b.transactions@[t])
}

proof fn lemma_parsed_not_panics(b: JsonBlock)
    requires
        block_parsed(b),
    ensures
        !block_panics(b),
{
    reveal(block_panics);
    if block_panics(b) {
        let w = choose|w: int|
            0 <= w < b.transactions@.len() && tx_scan(#[trigger] b.transactions@[w]) == HexScan::Panics
                && forall|u: int| 0 <= u < w ==> tx_scan(#[trigger] b.transactions@[u]) == HexScan::Parsed;
        assert(tx_scan(b.transactions@[w]) == HexScan::Parsed);
    }
}

proof fn lemma_hex_scan_parsed(s: Seq<u8>, i: int)
    requires
        0 <= i,
        i % 2 == 0,
        hex_scan(s, i) == HexScan::Parsed,
    ensures
        s.len() % 2 == 0 || i >= s.len(),
        forall|k: int| i / 2 <= k < s.len() / 2 ==> #[trigger] pair_at(s, k) is Some,
        i <= s.len() ==> s.len() % 2 == 0,
    decreases s.len() - i,
{
    if i >= s.len() {
    } else {
        lemma_hex_scan_parsed(s, i + 2);
        assert forall|k: int| i / 2 <= k < s.len() / 2 implies pair_at(s, k) is Some by {
            if k == i / 2 {
                assert(2 * k == i);
            } else {
                assert(k >= (i + 2) / 2);
            }
        }
    }
}

fn hex_digit_exec(b: u8) -> (r: Option<u8>)
    ensures
        r == hex_digit(b),
{
    if 48 <= b && b <= 57 {
        Some(b - 48)
    } else if 97 <= b && b <= 102 {
        Some(b - 87)
    } else if 65 <= b && b <= 70 {
        Some(b - 55)
    } else {
        None
    }
}

fn hex_pair_exec(c0: u8, c1: u8) -> (r: Option<u8>)
    ensures
        r == hex_pair(c0, c1),
{
    if c0 == 43 {
        hex_digit_exec(c1)
    } else {
        match (hex_digit_exec(c0), hex_digit_exec(c1)) {
            (Some(h), Some(l)) => Some(h * 16 + l),
            _ => None,
        }
    }
}

/// How decoding a hex string ends: parsed, an invalid chunk, or a panic
/// (see [`hex_panics`]).
pub fn scan_hex(hex: &str) -> (r: HexScan)
    ensures
        r == bytes_scan(hex.spec_bytes()),
{
    let bytes = hex.as_bytes();
    let ghost full = bytes@;
    assert(full == hex.spec_bytes());
    let start: usize = if bytes.len() >= 2 && bytes[0] == 48 && bytes[1] == 120 { 2 } else { 0 };
    let ghost s = hex_body(full);
    assert(s =~= full.skip(start as int));
    let n: usize = bytes.len();
    let mut i: usize = start;
    while i < n
        invariant
            start <= i,
            n == full.len(),
            full == bytes@,
            full == hex.spec_bytes(),
            s == full.skip(start as int),
            s == hex_body(full),
            hex_scan(s, 0) == hex_scan(s, (i - start) as int),
        decreases n - i,
    {
        let ghost j: int = (i - start) as int;
        if n - i < 2 || (0x80 <= bytes[i] && bytes[i] <= 0xbf) || (n - i > 2 && 0x80 <= bytes[i + 2]
            && bytes[i + 2] <= 0xbf) {
            assert(hex_scan(s, j) == HexScan::Panics) by {
                assert(s[j] == full[i as int]);
                if i + 2 < n {
                    assert(s[j + 2] == full[i + 2]);
                }
            }
            return HexScan::Panics;
        }
        assert(boundary(s, j)) by {
            assert(s[j] == full[i as int]);
        }
        assert(boundary(s, j + 2)) by {
            if i + 2 < n {
                assert(s[j + 2] == full[i + 2]);
            }
        }
        if hex_pair_exec(bytes[i], bytes[i + 1]).is_none() {
            assert(s[j] == full[i as int] && s[j + 1] == full[i + 1]);
            return HexScan::Invalid;
        }
        assert(s[j] == full[i as int] && s[j + 1] == full[i + 1]);
        i = i + 2;
    }
    HexScan::Parsed
}

/// Parses a hex string, with or without a leading `0x`, into bytes, two
/// digits (or a sign and a digit) per byte, as `u8::from_str_radix` reads
/// them; the first chunk that is not a hex byte gives
/// `Connection("Invalid hex string")`. An odd number of digits, or a chunk
/// that splits a multi-byte character, reached before any invalid chunk,
/// panics and is ruled out.
pub fn hex_to_bytes(hex: &str) -> (r: Result<Vec<u8>, SourceError>)
    requires
        !hex_panics(hex),
    ensures
        hex_valid(hex) ==> (r matches Ok(v) && v@ == hex_decoded(hex_body(hex.spec_bytes()))),
        !hex_valid(hex) ==> (r matches Err(SourceError::Connection(m)) && m@ == "Invalid hex string"@),
{
    let bytes = hex.as_bytes();
    let ghost full = bytes@;
    assert(full == hex.spec_bytes());
    let start: usize = if bytes.len() >= 2 && bytes[0] == 48 && bytes[1] == 120 { 2 } else { 0 };
    let ghost s = hex_body(full);
    assert(s =~= full.skip(start as int));
    let mut out: Vec<u8> = Vec::new();
    let mut i: usize = start;
    while i < bytes.len()
        invariant
            start <= i,
            full == bytes@,
            full == hex.spec_bytes(),
            s == full.skip(start as int),
            s == hex_body(full),
            (i - start) % 2 == 0,
            hex_scan(s, (i - start) as int) != HexScan::Panics,
            hex_scan(s, 0) == hex_scan(s, (i - start) as int),
            out@ == hex_decoded(s).take(((i - start) / 2) as int) || hex_scan(s, 0) != HexScan::Parsed,
            out@.len() == (i - start) / 2,
            forall|k: int| 0 <= k < out@.len() ==> #[trigger] pair_at(s, k) == Some(out@[k]),
            i <= full.len(),
        decreases full.len() - i,
    {
        let ghost j: int = (i - start) as int;
        assert(j + 2 <= s.len());
        let c0: u8 = bytes[i];
        let c1: u8 = bytes[i + 1];
        assert(c0 == s[j] && c1 == s[j + 1]);
        match hex_pair_exec(c0, c1) {
            Some(b) => {
                out.push(b);
                i = i + 2;
            },
            None => {
                assert(hex_scan(s, j) == HexScan::Invalid);
                assert(hex_scan(s, 0) == HexScan::Invalid);
                assert(full == hex.spec_bytes());
                assert(!hex_valid(hex));
                return Err(SourceError::Connection(String::from_str("Invalid hex string")));
            },
        }
    }
    proof {
        let j: int = (i - start) as int;
        assert(j >= s.len());
        assert(hex_scan(s, j) == HexScan::Parsed);
        lemma_hex_scan_parsed(s, 0);
        assert(out@ =~= hex_decoded(s)) by {
            assert(out@.len() == s.len() / 2);
        }
    }
    Ok(out)
}

/// A batch source that hands out the blocks of a source file once.
#[derive(Debug)]
pub struct LocalBatchSource {
    data: JsonSourceData,
    blocks_consumed: bool,
}

impl LocalBatchSource {
    /// The blocks the source was made with.
    pub closed spec fn blocks(&self) -> Seq<JsonBlock> {
        self.data.blocks@
    }

    /// Whether the blocks have been handed out.
    pub closed spec fn consumed(&self) -> bool {
        self.blocks_consumed
    }

    /// Creates a source over the given data; nothing has been handed out yet.
    pub fn from_data(data: JsonSourceData) -> (s: Self)
        ensures
            s.blocks() == data.blocks@,
            !s.consumed(),
    {
        LocalBatchSource { data, blocks_consumed: false }
    }

    /// How decoding the block's transactions in order ends.
    fn scan_block(block: &JsonBlock) -> (r: HexScan)
        ensures
            (r == HexScan::Parsed) == block_parsed(*block),
            (r == HexScan::Panics) == block_panics(*block),
    {
        let mut t: usize = 0;
        while t < block.transactions.len()
            invariant
                t <= block.transactions@.len(),
                forall|u: int| 0 <= u < t ==> tx_scan(#[trigger] block.transactions@[u]) == HexScan::Parsed,
            decreases block.transactions@.len() - t,
        {
            let tx = &block.transactions[t];
            let hex = tx.data.as_str();
            assert(hex.spec_bytes() == encode_utf8(tx.data@));
            let r = scan_hex(hex);
            assert(block.transactions@[t as int] == *tx);
            match r {
                HexScan::Parsed => {
                    t = t + 1;
                },
                HexScan::Panics => {
                    assert(block_panics(*block)) by {
                        reveal(block_panics);
                        assert(tx_scan(block.transactions@[t as int]) == HexScan::Panics);
                    }
                    return HexScan::Panics;
                },
                HexScan::Invalid => {
                    assert(!block_panics(*block)) by {
                        reveal(block_panics);
                        if block_panics(*block) {
                            let w = choose|w: int|
                                0 <= w < block.transactions@.len() && tx_scan(#[trigger] block.transactions@[w])
                                    == HexScan::Panics && forall|u: int| 0 <= u < w ==> tx_scan(
                                    #[trigger] block.transactions@[u],
                                ) == HexScan::Parsed;
                            if w > t {
                                assert(tx_scan(block.transactions@[t as int]) == HexScan::Parsed);
                            }
                        }
                    }
                    return HexScan::Invalid;
                },
            }
        }
        proof {
            lemma_parsed_not_panics(*block);
        }
        HexScan::Parsed
    }

    /// Whether handing out the blocks now would meet a transaction whose
    /// decoding panics before any invalid one (see [`source_panics`]); a
    /// consumed source hands out nothing and never does.
    pub fn decoding_panics(&self) -> (r: bool)
        ensures
            r == (!self.consumed() && source_panics(self.blocks())),
    {
        if self.blocks_consumed {
            return false;
        }
        let mut k: usize = 0;
        while k < self.data.blocks.len()
            invariant
                !self.consumed(),
                k <= self.blocks().len(),
                forall|j: int| 0 <= j < k ==> block_parsed(#[trigger] self.blocks()[j]),
            decreases self.blocks().len() - k,
        {
            let block = &self.data.blocks[k];
            assert(self.blocks()[k as int] == *block);
            match Self::scan_block(block) {
                HexScan::Parsed => {
                    k = k + 1;
                },
                HexScan::Panics => {
                    assert(source_panics(self.blocks())) by {
                        reveal(source_panics);
                        assert(block_panics(self.blocks()[k as int]));
                    }
                    return true;
                },
                HexScan::Invalid => {
                    assert(!source_panics(self.blocks())) by {
                        reveal(source_panics);
                        if source_panics(self.blocks()) {
                            let w = choose|w: int|
                                0 <= w < self.blocks().len() && block_panics(#[trigger] self.blocks()[w])
                                    && forall|j: int| 0 <= j < w ==> block_parsed(#[trigger] self.blocks()[j]);
                            if w > k {
                                assert(block_parsed(self.blocks()[k as int]));
                            }
                            if w < k {
                                lemma_parsed_not_panics(self.blocks()[w]);
                            }
                        }
                    }
                    return false;
                },
            }
        }
        assert(!source_panics(self.blocks())) by {
            reveal(source_panics);
            if source_panics(self.blocks()) {
                let w = choose|w: int|
                    0 <= w < self.blocks().len() && block_panics(#[trigger] self.blocks()[w])
                        && forall|j: int| 0 <= j < w ==> block_parsed(#[trigger] self.blocks()[j]);
                lemma_parsed_not_panics(self.blocks()[w]);
            }
        }
        false
    }

    fn decode_block(block: &JsonBlock) -> (r: Result<L2BlockData, SourceError>)
        requires
            !block_panics(*block),
        ensures
            block_parsed(*block) ==> (r matches Ok(b) && decoded_block(*block, b)),
            !block_parsed(*block) ==> (r matches Err(SourceError::Connection(m)) && m@ == "Invalid hex string"@),
    {
        let mut transactions: Vec<Bytes> = Vec::new();
        let mut t: usize = 0;
        while t < block.transactions.len()
            invariant
                !block_panics(*block),
                t <= block.transactions@.len(),
                transactions@.len() == t,
                forall|u: int| 0 <= u < t ==> tx_scan(#[trigger] block.transactions@[u]) == HexScan::Parsed,
                forall|u: int| 0 <= u < t ==>
                    (#[trigger] transactions@[u])@ == tx_decoded(block.transactions@[u]),
            decreases block.transactions@.len() - t,
        {
            let tx = &block.transactions[t];
            assert(tx_scan(*tx) != HexScan::Panics) by {
                if tx_scan(*tx) == HexScan::Panics {
                    assert(block.transactions@[t as int] == *tx);
                    reveal(block_panics);
                    assert(block_panics(*block));
                }
            }
            let hex = tx.data.as_str();
            assert(hex.spec_bytes() == encode_utf8(tx.data@));
            match hex_to_bytes(hex) {
                Ok(bytes) => {
                    transactions.push(bytes);
                    t = t + 1;
                },
                Err(e) => {
                    assert(!block_parsed(*block)) by {
                        assert(block.transactions@[t as int] == *tx);
                    }
                    return Err(e);
                },
            }
        }
        let out = L2BlockData { timestamp: block.timestamp, transactions };
        assert(decoded_block(*block, out));
        Ok(out)
    }

    /// Hands out every block, with its transactions decoded from hex, the
    /// first time it is called, and nothing after that. The source counts as
    /// consumed from the first call on, whether the decoding succeeds or not.
    /// A transaction that is not valid hex gives
    /// `Connection("Invalid hex string")`; one whose decoding panics, met
    /// before any invalid one, is excluded.
    pub fn pending_blocks(&mut self) -> (r: Result<Vec<L2BlockData>, SourceError>)
        requires
            !old(self).consumed() ==> !source_panics(old(self).blocks()),
        ensures
            final(self).blocks() == old(self).blocks(),
            final(self).consumed(),
            old(self).consumed() ==> (r matches Ok(v) && v@.len() == 0),
            !old(self).consumed() && source_parsed(old(self).blocks()) ==> (r matches Ok(v)
                && decoded_blocks(old(self).blocks(), v@)),
            !old(self).consumed() && !source_parsed(old(self).blocks()) ==> (r matches Err(
                SourceError::Connection(m),
            ) && m@ == "Invalid hex string"@),
    {
        if self.blocks_consumed {
            return Ok(Vec::new());
        }
        self.blocks_consumed = true;
        let mut out: Vec<L2BlockData> = Vec::new();
        let mut k: usize = 0;
        while k < self.data.blocks.len()
            invariant
                self.blocks_consumed,
                !old(self).consumed(),
                self.blocks() == old(self).blocks(),
                !source_panics(self.blocks()),
                k <= self.blocks().len(),
                out@.len() == k,
                forall|j: int| 0 <= j < k ==> block_parsed(#[trigger] self.blocks()[j]),
                forall|j: int| 0 <= j < k ==> decoded_block(#[trigger] self.blocks()[j], out@[j]),
            decreases self.blocks().len() - k,
        {
            let block = &self.data.blocks[k];
            assert(!block_panics(*block)) by {
                if block_panics(*block) {
                    assert(self.blocks()[k as int] == *block);
                    reveal(source_panics);
                    assert(source_panics(self.blocks()));
                }
            }
            match Self::decode_block(block) {
                Ok(b) => {
                    out.push(b);
                    k = k + 1;
                },
                Err(e) => {
                    assert(!source_parsed(self.blocks())) by {
                        assert(self.blocks()[k as int] == *block);
                    }
                    return Err(e);
                },
            }
        }
        Ok(out)
    }
}

} // verus!
