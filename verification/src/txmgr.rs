//! Transaction-manager bookkeeping: the send state of one submission, the
//! classification of node errors and the abort decision.

use vstd::prelude::*;
use vstd::string::StringSliceAdditionalSpecFns;
use std::sync::Arc;
use alloy::consensus::BlobTransactionSidecar;
use crate::fees::{
    fake_exponential_spec, opt_value, GasCaps, TxReceipt, Uint256, BLOB_GASPRICE_UPDATE_FRACTION, MIN_BLOB_GASPRICE,
};

verus! {

/// Transaction manager errors.
#[derive(Clone, Debug, PartialEq, Eq)]
pub enum TxError {
    /// Any other RPC error, with the node's message.
    Rpc(String),
    /// Transaction (or replacement) underpriced.
    Underpriced,
    /// Nonce too low.
    NonceTooLow,
    /// Too many "nonce too low" errors; give up.
    NonceTooLowAbort,
    /// Insufficient funds.
    InsufficientFunds,
    /// Transaction reverted.
    Reverted,
    /// Transaction already known or nonce already reserved.
    AlreadyReserved,
    /// Transaction not in mempool.
    NotInMempool,
    /// Blob gas too expensive.
    BlobGasTooExpensive {
        /// Current blob gas price.
        current: u128,
        /// Maximum blob gas price.
        max: u128,
    },
    /// Confirmation timeout.
    ConfirmationTimeout,
    /// Signing failed.
    Signing(String),
    /// Gas estimation failed.
    GasEstimation(String),
}

/// ASCII lower-casing of one byte.
pub open spec fn fold_byte(b: u8) -> u8 {
    if 65 <= b <= 90 { (b + 32) as u8 } else { b }
}

/// The ASCII capital letters `A` to `Z`.
pub open spec fn ascii_upper_letters() -> Seq<u8> {
    Seq::new(26, |i: int| (65 + i) as u8)
}

/// The ASCII small letters `a` to `z`.
pub open spec fn ascii_lower_letters() -> Seq<u8> {
    seq![
        97u8, 98, 99, 100, 101, 102, 103, 104, 105, 106, 107, 108, 109, 110, 111, 112, 113, 114, 115, 116, 117,
        118, 119, 120, 121, 122,
    ]
}

/// Case folding is ASCII lower-casing: each capital letter becomes its
/// small letter, at the same place in the alphabet, and every other byte
/// stays as it is.
pub proof fn law_fold_is_ascii_lowercase(b: u8, i: int)
    ensures
        0 <= i < 26 ==> fold_byte(ascii_upper_letters()[i]) == ascii_lower_letters()[i],
        !ascii_upper_letters().contains(b) ==> fold_byte(b) == b,
{
    let lo = ascii_lower_letters();
    let up = ascii_upper_letters();
    assert(lo[0] == 97 && lo[1] == 98 && lo[2] == 99 && lo[3] == 100 && lo[4] == 101 && lo[5] == 102);
    assert(lo[6] == 103 && lo[7] == 104 && lo[8] == 105 && lo[9] == 106 && lo[10] == 107 && lo[11] == 108);
    assert(lo[12] == 109 && lo[13] == 110 && lo[14] == 111 && lo[15] == 112 && lo[16] == 113);
    assert(lo[17] == 114 && lo[18] == 115 && lo[19] == 116 && lo[20] == 117 && lo[21] == 118);
    assert(lo[22] == 119 && lo[23] == 120 && lo[24] == 121 && lo[25] == 122);
    if !up.contains(b) && 65 <= b <= 90 {
        assert(up[b - 65] == b);
    }
}

/// A message and its ASCII upper-cased form are classified alike: folding
/// the upper-cased bytes gives the folded bytes of the message.
pub proof fn law_upper_casing_does_not_change_folding(s: Seq<u8>)
    ensures
        fold_bytes(s.map_values(|b: u8| if 97 <= b <= 122 { (b - 32) as u8 } else { b })) == fold_bytes(s),
{
    let u = s.map_values(|b: u8| if 97 <= b <= 122 { (b - 32) as u8 } else { b });
    assert forall|k: int| 0 <= k < s.len() implies #[trigger] fold_bytes(u)[k] == fold_bytes(s)[k] by {
        let b = s[k];
        law_fold_is_ascii_lowercase(b, b - 65);
        law_fold_is_ascii_lowercase(b, b - 97);
        if 97 <= b <= 122 {
            law_fold_is_ascii_lowercase((b - 32) as u8, b - 97);
            assert(ascii_upper_letters()[b - 97] == (b - 32) as u8);
            assert(ascii_lower_letters()[b - 97] == b);
            if !ascii_upper_letters().contains(b) {
            } else {
                let j = choose|j: int| 0 <= j < 26 && ascii_upper_letters()[j] == b;
                assert(false);
            }
        } else if 65 <= b <= 90 {
            assert(ascii_upper_letters()[b - 65] == b);
        } else {
            if ascii_upper_letters().contains(b) {
                let j = choose|j: int| 0 <= j < 26 && ascii_upper_letters()[j] == b;
                assert(false);
            }
        }
    }
    assert(fold_bytes(u) =~= fold_bytes(s));
}

/// ASCII lower-casing of a byte sequence.
pub open spec fn fold_bytes(s: Seq<u8>) -> Seq<u8> {
    s.map_values(|b: u8| fold_byte(b))
}

/// Whether `pat` occurs in `hay` at position `i`.
pub open spec fn occurs_at(hay: Seq<u8>, pat: Seq<u8>, i: int) -> bool {
    0 <= i && i + pat.len() <= hay.len() && hay.subrange(i, i + pat.len()) == pat
}

/// Whether `pat` occurs somewhere in `hay`.
pub open spec fn occurs(hay: Seq<u8>, pat: Seq<u8>) -> bool {
    exists|i: int| occurs_at(hay, pat, i)
}

/// Whether the message, ASCII letters folded to lower case, contains the
/// phrase.
pub open spec fn mentions(message: &str, phrase: &str) -> bool {
    occurs(fold_bytes(message.spec_bytes()), phrase.spec_bytes())
}

/// Whether `r` is the error a node's message stands for: already
/// known or reserved, then nonce too low, then insufficient funds or
/// balance, then underpriced, then reverted, checked in that order on the
/// case-folded message; any other message is an RPC error carrying it.
pub open spec fn classifies(message: &str, r: TxError) -> bool {
    if mentions(message, "already known") || mentions(message, "already reserved") {
        r == TxError::AlreadyReserved
    } else if mentions(message, "nonce too low") {
        r == TxError::NonceTooLow
    } else if mentions(message, "insufficient funds") || mentions(message, "insufficient balance") {
        r == TxError::InsufficientFunds
    } else if mentions(message, "underpriced") {
        r == TxError::Underpriced
    } else if mentions(message, "reverted") {
        r == TxError::Reverted
    } else {
        r matches TxError::Rpc(m) && m@ == message@
    }
}

/// Classification ignores ASCII case: two messages that agree once folded
/// to lower case mention the same phrases, and are classified alike, up to
/// the message an RPC error carries.
pub proof fn law_classification_ignores_case(a: &str, b: &str, r: TxError)
    requires
        fold_bytes(a.spec_bytes()) == fold_bytes(b.spec_bytes()),
        classifies(a, r),
    ensures
        forall|phrase: &str| mentions(a, phrase) == mentions(b, phrase),
        !(r is Rpc) ==> classifies(b, r),
{
}

/// Whether `pat` occurs in the ASCII-folded `hay`.
fn occurs_folded(hay: &[u8], pat: &[u8]) -> (r: bool)
    ensures
        r == occurs(fold_bytes(hay@), pat@),
{
    let ghost h = fold_bytes(hay@);
    if pat.len() > hay.len() {
        assert forall|i: int| !occurs_at(h, pat@, i) by {}
        return false;
    }
    if pat.len() == 0 {
        assert(h.subrange(0, 0) =~= pat@);
        assert(occurs_at(h, pat@, 0));
        return true;
    }
    let last: usize = hay.len() - pat.len();
    let mut i: usize = 0;
    while i <= last
        invariant
            last == hay@.len() - pat@.len(),
            0 < pat@.len() <= hay@.len(),
            hay@.len() <= usize::MAX,
            h == fold_bytes(hay@),
            forall|k: int| 0 <= k < i ==> !occurs_at(h, pat@, k),
        decreases last + 1 - i,
    {
        let mut j: usize = 0;
        let mut matched = true;
        while j < pat.len()
            invariant
                i <= last,
                last == hay@.len() - pat@.len(),
                hay@.len() <= usize::MAX,
                j <= pat@.len(),
                h == fold_bytes(hay@),
                matched == (forall|k: int| 0 <= k < j ==> h[i + k] == pat@[k]),
            decreases pat@.len() - j,
        {
            let b: u8 = hay[i + j];
            let folded: u8 = if 65 <= b && b <= 90 { b + 32 } else { b };
            assert(folded == h[i + j]);
            if folded != pat[j] {
                matched = false;
            }
            j += 1;
        }
        if matched {
            assert(h.subrange(i as int, i + pat@.len()) =~= pat@);
            assert(occurs_at(h, pat@, i as int));
            return true;
        }
        assert(!(h.subrange(i as int, i + pat@.len()) =~= pat@));
        i += 1;
    }
    assert forall|k: int| !occurs_at(h, pat@, k) by {
        if 0 <= k && k + pat@.len() <= h.len() {
            assert(k < i);
        }
    }
    false
}

/// Whether the message, ASCII letters folded to lower case, contains the
/// phrase.
fn message_mentions(message: &str, phrase: &str) -> (r: bool)
    ensures
        r == mentions(message, phrase),
{
    occurs_folded(message.as_bytes(), phrase.as_bytes())
}

/// Classifies a node's error message: "already known" or "already
/// reserved", then "nonce too low", then "insufficient funds" or
/// "insufficient balance", then "underpriced", then "reverted", matched
/// without regard to ASCII case; any other message becomes
/// [`TxError::Rpc`] with the message.
pub fn from_rpc_error(message: &str) -> (r: TxError)
    ensures
        classifies(message, r),
{
    if message_mentions(message, "already known") || message_mentions(message, "already reserved") {
        TxError::AlreadyReserved
    } else if message_mentions(message, "nonce too low") {
        TxError::NonceTooLow
    } else if message_mentions(message, "insufficient funds") || message_mentions(message, "insufficient balance") {
        TxError::InsufficientFunds
    } else if message_mentions(message, "underpriced") {
        TxError::Underpriced
    } else if message_mentions(message, "reverted") {
        TxError::Reverted
    } else {
        TxError::Rpc(String::from_str(message))
    }
}


/// Whether two 32-byte hashes are equal.
fn hash_eq(a: &[u8; 32], b: &[u8; 32]) -> (r: bool)
    ensures
        r == (*a == *b),
{
    let mut i: usize = 0;
    while i < 32
        invariant
            i <= 32,
            forall|k: int| 0 <= k < i ==> a@[k] == b@[k],
        decreases 32 - i,
    {
        if a[i] != b[i] {
            return false;
        }
        i += 1;
    }
    assert(a@ =~= b@);
    assert(*a == *b) by {
        vstd::array::axiom_array_ext_equal(*a, *b);
    }
    true
}

/// Seeing a hash reorged out undoes seeing it mined: for a hash not seen as
/// mined before, the mined set after both is the set before.
pub proof fn law_not_mined_undoes_mined(mined: Set<[u8; 32]>, hash: [u8; 32])
    requires
        !mined.contains(hash),
    ensures
        mined.insert(hash).remove(hash) == mined,
{
    assert(mined.insert(hash).remove(hash) =~= mined);
}

/// Tracks the state of a single transaction submission attempt.
#[derive(Debug)]
pub struct SendState {
    mined_txs: Vec<[u8; 32]>,
    successful_publish_count: u32,
    nonce_too_low_count: u32,
    already_reserved: bool,
    bump_fees: bool,
    bump_count: u32,
}

impl SendState {
    /// Hashes of the transactions currently seen as mined.
    pub closed spec fn mined(&self) -> Set<[u8; 32]> {
        self.mined_txs@.to_set()
    }

    /// Number of successful publishes to the mempool.
    pub closed spec fn publish_count(&self) -> u32 {
        self.successful_publish_count
    }

    /// Number of "nonce too low" errors since the last full reorg.
    pub closed spec fn nonce_too_low_errors(&self) -> u32 {
        self.nonce_too_low_count
    }

    /// Whether fees are to be bumped on the next attempt.
    pub closed spec fn bump_pending(&self) -> bool {
        self.bump_fees
    }

    /// Whether the nonce was found already reserved.
    pub closed spec fn reserved(&self) -> bool {
        self.already_reserved
    }

    /// Total number of fee bumps requested.
    pub closed spec fn bumps(&self) -> u32 {
        self.bump_count
    }

    /// The set of mined hashes is finite.
    pub proof fn lemma_mined_finite(&self)
        ensures
            self.mined().finite(),
    {
        vstd::seq_lib::seq_to_set_is_finite(self.mined_txs@);
    }

    /// The state's invariant: each mined hash is held once.
    pub closed spec fn wf(&self) -> bool {
        self.mined_txs@.no_duplicates()
    }

    /// A fresh state: nothing published or mined, no errors, no bump.
    pub fn new() -> (s: SendState)
        ensures
            s.wf(),
            s.mined() == Set::<[u8; 32]>::empty(),
            s.mined().finite(),
            s.publish_count() == 0,
            s.nonce_too_low_errors() == 0,
            !s.bump_pending(),
            s.bumps() == 0,
            !s.reserved(),
    {
        let s = SendState {
            mined_txs: Vec::new(),
            successful_publish_count: 0,
            nonce_too_low_count: 0,
            already_reserved: false,
            bump_fees: false,
            bump_count: 0,
        };
        assert(s.mined_txs@.to_set() =~= Set::<[u8; 32]>::empty());
        s
    }

    /// Records a successful publish to the mempool. A count past `u32::MAX`
    /// overflows and is ruled out.
    pub fn tx_published(&mut self)
        requires
            old(self).publish_count() < u32::MAX,
        ensures
            final(self).publish_count() == old(self).publish_count() + 1,
            final(self).reserved() == old(self).reserved(),
            final(self).mined() == old(self).mined(),
            final(self).wf() == old(self).wf(),
            final(self).nonce_too_low_errors() == old(self).nonce_too_low_errors(),
            final(self).bump_pending() == old(self).bump_pending(),
            final(self).bumps() == old(self).bumps(),
    {
        self.successful_publish_count = self.successful_publish_count + 1;
    }

    /// Records that a transaction hash has been mined; a hash already held is
    /// held once.
    pub fn tx_mined(&mut self, hash: [u8; 32])
        requires
            old(self).wf(),
        ensures
            final(self).wf(),
            final(self).mined() == old(self).mined().insert(hash),
            final(self).mined().finite(),
            final(self).publish_count() == old(self).publish_count(),
            final(self).reserved() == old(self).reserved(),
            final(self).nonce_too_low_errors() == old(self).nonce_too_low_errors(),
            final(self).bump_pending() == old(self).bump_pending(),
            final(self).bumps() == old(self).bumps(),
    {
        broadcast use vstd::seq_lib::seq_to_set_is_finite;
        let mut i: usize = 0;
        while i < self.mined_txs.len()
            invariant
                i <= self.mined_txs@.len(),
                self.mined_txs@.no_duplicates(),
                forall|k: int| 0 <= k < i ==> self.mined_txs@[k] != hash,
            decreases self.mined_txs@.len() - i,
        {
            if hash_eq(&self.mined_txs[i], &hash) {
                proof {
                    assert(self.mined_txs@.to_set().contains(hash));
                    assert(self.mined_txs@.to_set().insert(hash) =~= self.mined_txs@.to_set());
                }
                return;
            }
            i += 1;
        }
        let ghost before = self.mined_txs@;
        self.mined_txs.push(hash);
        proof {
            assert(!before.contains(hash));
            assert(self.mined_txs@ == before.push(hash));
            assert(self.mined_txs@.to_set() =~= before.to_set().insert(hash)) by {
                broadcast use vstd::seq_lib::group_seq_properties;
            }
            assert(self.mined_txs@.no_duplicates()) by {
                assert forall|x: int, y: int|
                    0 <= x < self.mined_txs@.len() && 0 <= y < self.mined_txs@.len() && x != y
                    implies self.mined_txs@[x] != self.mined_txs@[y] by {
                    if x == before.len() {
                        assert(before[y] == self.mined_txs@[y]);
                    } else if y == before.len() {
                        assert(before[x] == self.mined_txs@[x]);
                    }
                }
            }
        }
    }

    /// Records that a transaction hash was not mined or was reorged out. When
    /// no mined hash remains, the "nonce too low" count starts over.
    pub fn tx_not_mined(&mut self, hash: &[u8; 32])
        requires
            old(self).wf(),
        ensures
            final(self).wf(),
            final(self).mined() == old(self).mined().remove(*hash),
            final(self).mined().finite(),
            final(self).nonce_too_low_errors() == if final(self).mined().is_empty() {
                0
            } else {
                old(self).nonce_too_low_errors()
            },
            final(self).publish_count() == old(self).publish_count(),
            final(self).reserved() == old(self).reserved(),
            final(self).bump_pending() == old(self).bump_pending(),
            final(self).bumps() == old(self).bumps(),
    {
        broadcast use vstd::seq_lib::seq_to_set_is_finite;
        let ghost before = self.mined_txs@;
        let mut i: usize = 0;
        let mut found = false;
        while i < self.mined_txs.len() && !found
            invariant
                before == self.mined_txs@,
                i <= self.mined_txs@.len(),
                found ==> i < self.mined_txs@.len() && self.mined_txs@[i as int] == *hash,
                forall|k: int| 0 <= k < i ==> self.mined_txs@[k] != *hash,
            decreases self.mined_txs@.len() - i, if found { 0int } else { 1int },
        {
            if hash_eq(&self.mined_txs[i], hash) {
                found = true;
            } else {
                i += 1;
            }
        }
        if found {
            let ghost idx: int = i as int;
            self.mined_txs.remove(i);
            proof {
                assert(self.mined_txs@ == before.remove(idx));
                assert(before[idx] == *hash);
                assert forall|x: int| 0 <= x < before.len() && x != idx implies before[x] != *hash by {}
                assert(self.mined_txs@.to_set() =~= before.to_set().remove(*hash)) by {
                    assert forall|v: [u8; 32]| self.mined_txs@.to_set().contains(v) <==> before.to_set().remove(*hash).contains(v) by {
                        if self.mined_txs@.contains(v) {
                            let j = choose|j: int| 0 <= j < self.mined_txs@.len() && self.mined_txs@[j] == v;
                            if j < idx {
                                assert(before[j] == v);
                            } else {
                                assert(before[j + 1] == v);
                            }
                        }
                        if before.to_set().remove(*hash).contains(v) {
                            let j = choose|j: int| 0 <= j < before.len() && before[j] == v;
                            assert(j != idx);
                            if j < idx {
                                assert(self.mined_txs@[j] == v);
                            } else {
                                assert(self.mined_txs@[j - 1] == v);
                            }
                        }
                    }
                }
                assert(self.mined_txs@.no_duplicates()) by {
                    assert forall|x: int, y: int|
                        0 <= x < self.mined_txs@.len() && 0 <= y < self.mined_txs@.len() && x != y
                        implies self.mined_txs@[x] != self.mined_txs@[y] by {
                        let bx: int = if x < idx { x } else { x + 1 };
                        let by_: int = if y < idx { y } else { y + 1 };
                        assert(self.mined_txs@[x] == before[bx]);
                        assert(self.mined_txs@[y] == before[by_]);
                    }
                }
            }
        } else {
            proof {
                assert(!before.contains(*hash));
                assert(before.to_set().remove(*hash) =~= before.to_set());
            }
        }
        if self.mined_txs.len() == 0 {
            self.nonce_too_low_count = 0;
            proof {
                assert(self.mined_txs@.to_set() =~= Set::<[u8; 32]>::empty());
            }
        } else {
            proof {
                assert(self.mined_txs@.to_set().contains(self.mined_txs@[0]));
            }
        }
    }

    /// Records a "nonce too low" error. A count past `u32::MAX` overflows
    /// and is ruled out.
    pub fn nonce_too_low(&mut self)
        requires
            old(self).nonce_too_low_errors() < u32::MAX,
        ensures
            final(self).nonce_too_low_errors() == old(self).nonce_too_low_errors() + 1,
            final(self).mined() == old(self).mined(),
            final(self).wf() == old(self).wf(),
            final(self).publish_count() == old(self).publish_count(),
            final(self).reserved() == old(self).reserved(),
            final(self).bump_pending() == old(self).bump_pending(),
            final(self).bumps() == old(self).bumps(),
    {
        self.nonce_too_low_count = self.nonce_too_low_count + 1;
    }

    /// Whether the nonce is to be abandoned: the threshold is positive and
    /// the "nonce too low" count reached it (a zero threshold never aborts).
    pub fn should_abort_nonce(&self, threshold: u32) -> (r: bool)
        ensures
            r == (threshold > 0 && self.nonce_too_low_errors() >= threshold),
    {
        threshold > 0 && self.nonce_too_low_count >= threshold
    }

    /// Whether the transaction was published at least once.
    pub fn was_published(&self) -> (r: bool)
        ensures
            r == (self.publish_count() > 0),
    {
        self.successful_publish_count > 0
    }

    /// Requests a fee bump on the next attempt and counts it. A count past
    /// `u32::MAX` overflows and is ruled out.
    pub fn set_bump_fees(&mut self)
        requires
            old(self).bumps() < u32::MAX,
        ensures
            final(self).bump_pending(),
            final(self).bumps() == old(self).bumps() + 1,
            final(self).mined() == old(self).mined(),
            final(self).wf() == old(self).wf(),
            final(self).publish_count() == old(self).publish_count(),
            final(self).reserved() == old(self).reserved(),
            final(self).nonce_too_low_errors() == old(self).nonce_too_low_errors(),
    {
        self.bump_fees = true;
        self.bump_count = self.bump_count + 1;
    }

    /// Takes and clears the bump request, returning whether it was set; the
    /// bump count stays.
    pub fn take_bump_fees(&mut self) -> (prev: bool)
        ensures
            prev == old(self).bump_pending(),
            !final(self).bump_pending(),
            final(self).bumps() == old(self).bumps(),
            final(self).mined() == old(self).mined(),
            final(self).wf() == old(self).wf(),
            final(self).publish_count() == old(self).publish_count(),
            final(self).reserved() == old(self).reserved(),
            final(self).nonce_too_low_errors() == old(self).nonce_too_low_errors(),
    {
        let prev = self.bump_fees;
        self.bump_fees = false;
        prev
    }

    /// Number of successful publishes to the mempool.
    pub fn successful_publish_count(&self) -> (n: u32)
        ensures
            n == self.publish_count(),
    {
        self.successful_publish_count
    }

    /// Number of "nonce too low" errors since the last full reorg.
    pub fn nonce_too_low_count(&self) -> (n: u32)
        ensures
            n == self.nonce_too_low_errors(),
    {
        self.nonce_too_low_count
    }

    /// Whether fees are to be bumped on the next attempt.
    pub fn bump_fees(&self) -> (r: bool)
        ensures
            r == self.bump_pending(),
    {
        self.bump_fees
    }

    /// Whether the nonce was found already reserved; no operation of the
    /// state sets it.
    pub fn already_reserved(&self) -> (r: bool)
        ensures
            r == self.reserved(),
    {
        self.already_reserved
    }

    /// Total number of fee bumps requested.
    pub fn bump_count(&self) -> (n: u32)
        ensures
            n == self.bumps(),
    {
        self.bump_count
    }

    /// Number of transactions seen as mined.
    pub fn mined_count(&self) -> (n: usize)
        requires
            self.wf(),
        ensures
            n == self.mined().len(),
    {
        proof {
            self.mined_txs@.unique_seq_to_set();
        }
        self.mined_txs.len()
    }
}

impl Default for SendState {
    /// The same as [`SendState::new`].
    fn default() -> (s: Self)
        ensures
            s.wf(),
            s.mined() == Set::<[u8; 32]>::empty(),
            s.publish_count() == 0,
            s.nonce_too_low_errors() == 0,
            !s.bump_pending(),
            s.bumps() == 0,
            !s.reserved(),
    {
        SendState::new()
    }
}

/// The abort rule of the transaction submitter.
#[derive(Clone, Copy, Debug)]
pub struct AbortPolicy {
    /// "Nonce too low" errors before abort (0 = never abort on them).
    pub safe_abort_nonce_too_low_count: u32,
}

impl AbortPolicy {
    /// Whether to give up retrying: always on an already reserved nonce,
    /// insufficient funds or an explicit nonce abort; on "nonce too low" once
    /// the threshold is reached; never on any other error.
    pub fn should_abort(&self, error: &TxError, state: &SendState) -> (r: bool)
        ensures
            r == match error {
                TxError::AlreadyReserved | TxError::InsufficientFunds | TxError::NonceTooLowAbort => true,
                TxError::NonceTooLow => self.safe_abort_nonce_too_low_count > 0
                    && state.nonce_too_low_errors() >= self.safe_abort_nonce_too_low_count,
                _ => false,
            },
    {
        match error {
            TxError::AlreadyReserved | TxError::InsufficientFunds => true,
            TxError::NonceTooLowAbort => true,
            TxError::NonceTooLow => state.should_abort_nonce(self.safe_abort_nonce_too_low_count),
            _ => false,
        }
    }
}

/// The receipt of a transaction as a node reports it: a failed status is a
/// revert, a receipt without block number or block hash is an RPC error
/// saying which is missing, and otherwise the fields are carried over.
pub fn receipt_from_rpc(
    succeeded: bool,
    tx_hash: [u8; 32],
    block_number: Option<u64>,
    block_hash: Option<[u8; 32]>,
    gas_used: u64,
    effective_gas_price: u128,
    blob_gas_used: Option<u64>,
    blob_gas_price: Option<u128>,
) -> (r: Result<TxReceipt, TxError>)
    ensures
        !succeeded ==> r == Err::<TxReceipt, TxError>(TxError::Reverted),
        succeeded && block_number is None ==> (r matches Err(TxError::Rpc(m)) && m@
            == "Receipt missing block number"@),
        succeeded && block_number is Some && block_hash is None ==> (r matches Err(TxError::Rpc(m)) && m@
            == "Receipt missing block hash"@),
        succeeded && block_number is Some && block_hash is Some ==> r == Ok::<TxReceipt, TxError>(
            TxReceipt {
                tx_hash,
                block_number: block_number->0,
                block_hash: block_hash->0,
                gas_used,
                effective_gas_price,
                blob_gas_used,
                blob_gas_price,
            },
        ),
{
    if !succeeded {
        return Err(TxError::Reverted);
    }
    let block_number: u64 = match block_number {
        Some(n) => n,
        None => {
            return Err(TxError::Rpc(String::from_str("Receipt missing block number")));
        },
    };
    let block_hash = match block_hash {
        Some(h) => h,
        None => {
            return Err(TxError::Rpc(String::from_str("Receipt missing block hash")));
        },
    };
    Ok(TxReceipt { tx_hash, block_number, block_hash, gas_used, effective_gas_price, blob_gas_used, blob_gas_price })
}

/// The gas caps suggested from the latest block, given as its base fee and
/// excess blob gas, or `None` where no latest block was found: no block is
/// a gas estimation error, as is a block without a base fee; otherwise the
/// caps are those [`GasCaps::suggested`] gives for the block and the
/// minimum tip.
pub fn caps_from_latest_block(block: Option<(Option<u64>, Option<u64>)>, min_tip_cap_wei: u128) -> (r: Result<
    GasCaps,
    TxError,
>)
    ensures
        block is None ==> (r matches Err(TxError::GasEstimation(m)) && m@ == "Latest block not found"@),
        block matches Some((None, _)) ==> (r matches Err(TxError::GasEstimation(m)) && m@
            == "Base fee not available"@),
        block matches Some((Some(base_fee), excess_blob_gas)) ==> (r matches Ok(c) && {
            &&& c.gas_tip_cap.value() == min_tip_cap_wei
            &&& c.gas_fee_cap.value() == base_fee + min_tip_cap_wei
            &&& match excess_blob_gas {
                Some(e) => opt_value(c.blob_fee_cap) == Some(
                    fake_exponential_spec(MIN_BLOB_GASPRICE as nat, e as nat, BLOB_GASPRICE_UPDATE_FRACTION as nat)
                        as int,
                ),
                None => c.blob_fee_cap is None,
            }
        }),
{
    match block {
        None => Err(TxError::GasEstimation(String::from_str("Latest block not found"))),
        Some((None, _)) => Err(TxError::GasEstimation(String::from_str("Base fee not available"))),
        Some((Some(base_fee), excess_blob_gas)) => Ok(GasCaps::suggested(base_fee, min_tip_cap_wei, excess_blob_gas)),
    }
}

/// alloy's `BlobTransactionSidecar`: the blobs, commitments and proofs of a
/// blob transaction.
#[verifier::external_type_specification]
#[verifier::external_body]
pub struct ExBlobTransactionSidecar(BlobTransactionSidecar);

/// alloy's derived `Clone` for `BlobTransactionSidecar`: a copy of the
/// blobs, commitments and proofs, equal to the original value.
#[verifier::external_body]
fn clone_sidecar(sidecar: &BlobTransactionSidecar) -> (r: BlobTransactionSidecar)
    ensures
        r == *sidecar,
{
    sidecar.clone()
}

/// An unsigned transaction request, field by field: what a signer needs
/// to turn a candidate into a transaction.
#[derive(Clone, Debug)]
pub struct TxRequest {
    /// The recipient address.
    pub to: [u8; 20],
    /// The value to send in wei.
    pub value: Uint256,
    /// The calldata.
    pub input: Vec<u8>,
    /// The sender's nonce.
    pub nonce: u64,
    /// The chain the transaction is for.
    pub chain_id: u64,
    /// The sender address.
    pub from: [u8; 20],
    /// Maximum fee per gas.
    pub max_fee_per_gas: u128,
    /// Maximum priority fee per gas.
    pub max_priority_fee_per_gas: u128,
    /// Gas limit; left for estimation when absent.
    pub gas_limit: Option<u64>,
    /// Blob sidecar of a blob transaction.
    pub blob_sidecar: Option<BlobTransactionSidecar>,
    /// Maximum fee per blob gas, set for a blob transaction with a blob cap.
    pub max_fee_per_blob_gas: Option<u128>,
}

/// A transaction to be sent: a recipient, a value, call data, a blob
/// sidecar for blob transactions, and an optional gas limit.
#[derive(Clone, Debug)]
pub struct TxCandidate {
    /// The recipient address.
    pub to: [u8; 20],
    /// The value to send in wei.
    pub value: Uint256,
    /// The transaction calldata.
    pub data: Vec<u8>,
    /// Blob sidecar for EIP-4844 blob transactions.
    pub blob_sidecar: Option<BlobTransactionSidecar>,
    /// Gas limit (estimated when absent).
    pub gas_limit: Option<u64>,
}

impl TxCandidate {
    /// A calldata transaction: zero value, no blobs, gas limit estimated.
    pub fn calldata(to: [u8; 20], data: Vec<u8>) -> (c: Self)
        ensures
            c.to == to,
            c.value.value() == 0,
            c.data@ == data@,
            c.blob_sidecar is None,
            c.gas_limit is None,
    {
        TxCandidate { to, value: Uint256::zero(), data, blob_sidecar: None, gas_limit: None }
    }

    /// A blob transaction: zero value, empty calldata, gas limit estimated.
    pub fn blob(to: [u8; 20], sidecar: BlobTransactionSidecar) -> (c: Self)
        ensures
            c.to == to,
            c.value.value() == 0,
            c.data@.len() == 0,
            c.blob_sidecar == Some(sidecar),
            c.gas_limit is None,
    {
        TxCandidate { to, value: Uint256::zero(), data: Vec::new(), blob_sidecar: Some(sidecar), gas_limit: None }
    }

    /// Whether the transaction carries blobs.
    pub fn is_blob(&self) -> (r: bool)
        ensures
            r == self.blob_sidecar is Some,
    {
        self.blob_sidecar.is_some()
    }

    /// The same transaction with the given value.
    pub fn with_value(self, value: Uint256) -> (c: Self)
        ensures
            c == (TxCandidate { value, ..self }),
    {
        TxCandidate { value, ..self }
    }

    /// The same transaction with the given gas limit.
    pub fn with_gas_limit(self, gas_limit: u64) -> (c: Self)
        ensures
            c == (TxCandidate { gas_limit: Some(gas_limit), ..self }),
    {
        TxCandidate { gas_limit: Some(gas_limit), ..self }
    }
}

/// Transaction builder: the provider that estimates gas and the chain the
/// transactions are built for.
#[derive(Debug)]
pub struct TxBuilder<P> {
    provider: Arc<P>,
    chain_id: u64,
}

impl<P> TxBuilder<P> {
    /// The provider.
    pub closed spec fn provider_spec(&self) -> Arc<P> {
        self.provider
    }

    /// The chain the transactions are built for.
    pub closed spec fn chain_id_spec(&self) -> u64 {
        self.chain_id
    }

    /// Creates a builder over a provider for the given chain.
    pub fn new(provider: Arc<P>, chain_id: u64) -> (b: Self)
        ensures
            b.provider_spec() == provider,
            b.chain_id_spec() == chain_id,
    {
        TxBuilder { provider, chain_id }
    }

    /// The provider.
    pub fn provider(&self) -> (p: &Arc<P>)
        ensures
            *p == self.provider_spec(),
    {
        &self.provider
    }

    /// The chain the transactions are built for.
    pub fn chain_id(&self) -> (c: u64)
        ensures
            c == self.chain_id_spec(),
    {
        self.chain_id
    }

    /// Builds the unsigned request for a candidate: its recipient, value,
    /// calldata and gas limit, the nonce, chain and sender, and the fee caps;
    /// a blob candidate also carries its sidecar and, where the caps hold a
    /// blob cap, the blob fee. A cap that does not fit in `u128` is a
    /// conversion panic and is excluded.
    pub fn build_request(&self, candidate: &TxCandidate, nonce: u64, caps: &GasCaps, from: [u8; 20]) -> (r: TxRequest)
        requires
            caps.gas_fee_cap.value() <= u128::MAX,
            caps.gas_tip_cap.value() <= u128::MAX,
            candidate.blob_sidecar is Some ==> match caps.blob_fee_cap {
                Some(c) => c.value() <= u128::MAX,
                None => true,
            },
        ensures
            r.to == candidate.to,
            r.value == candidate.value,
            r.input@ == candidate.data@,
            r.nonce == nonce,
            r.chain_id == self.chain_id_spec(),
            r.from == from,
            r.max_fee_per_gas == caps.gas_fee_cap.value(),
            r.max_priority_fee_per_gas == caps.gas_tip_cap.value(),
            r.gas_limit == candidate.gas_limit,
            r.blob_sidecar == candidate.blob_sidecar,
            match (candidate.blob_sidecar, caps.blob_fee_cap) {
                (Some(_), Some(c)) => r.max_fee_per_blob_gas == Some(c.value() as u128),
                _ => r.max_fee_per_blob_gas is None,
            },
    {
        let input = copy_bytes(&candidate.data);
        let (blob_sidecar, max_fee_per_blob_gas) = match &candidate.blob_sidecar {
            Some(sidecar) => {
                let fee: Option<u128> = match &caps.blob_fee_cap {
                    Some(c) => Some(c.to_u128()),
                    None => None,
                };
                (Some(clone_sidecar(sidecar)), fee)
            },
            None => (None, None),
        };
        TxRequest {
            to: candidate.to,
            value: candidate.value,
            input,
            nonce,
            chain_id: self.chain_id,
            from,
            max_fee_per_gas: caps.gas_fee_cap.to_u128(),
            max_priority_fee_per_gas: caps.gas_tip_cap.to_u128(),
            gas_limit: candidate.gas_limit,
            blob_sidecar,
            max_fee_per_blob_gas,
        }
    }
}

/// A copy of a byte vector.
fn copy_bytes(v: &Vec<u8>) -> (r: Vec<u8>)
    ensures
        r@ == v@,
{
    let mut out: Vec<u8> = Vec::new();
    let mut i: usize = 0;
    while i < v.len()
        invariant
            i <= v@.len(),
            out@ == v@.take(i as int),
        decreases v@.len() - i,
    {
        out.push(v[i]);
        proof {
            assert(v@.take(i + 1) =~= v@.take(i as int).push(v@[i as int]));
        }
        i += 1;
    }
    assert(v@.take(v@.len() as int) =~= v@);
    out
}

} // verus!
