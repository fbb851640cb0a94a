//! AppendVec: a buffer of packed account records, read front to back.
//!
//! A record is four parts, each starting on an 8-byte boundary of the buffer:
//! the stored meta (48 bytes), the account meta (56 bytes), the hash (32 bytes)
//! and the payload, whose length the stored meta declares.

use crate::bytes::{
    align8, le_u64, lemma_align8, lemma_align8_monotone, read_array32, read_u64_le,
};
use crate::pubkey::Pubkey;
use crate::SnapshotError;
use vstd::prelude::*;
use vstd::slice::slice_subrange;

verus! {

/// Bytes of the stored meta: write version, payload length, address.
pub const STORED_META_LEN: usize = 48;

/// Bytes of the account meta: lamports, rent epoch, owner, executable flag, padding.
pub const ACCOUNT_META_LEN: usize = 56;

/// Bytes of the account hash.
pub const HASH_LEN: usize = 32;

/// Bytes of a record with an empty payload that starts on an 8-byte boundary.
pub const MIN_RECORD_LEN: usize = 136;

#[derive(Clone, Copy, Debug)]
pub struct StoredMeta {
    pub write_version: u64,
    pub data_len: u64,
    pub pubkey: Pubkey,
}

#[derive(Clone, Copy, Debug)]
pub struct AccountMeta {
    pub lamports: u64,
    pub rent_epoch: u64,
    pub owner: Pubkey,
    pub executable: bool,
}

/// One account record. The payload is a view into the AppendVec's buffer; the
/// fixed-size parts are decoded from it.
#[derive(Clone, Copy, Debug)]
pub struct StoredAccountMeta<'a> {
    pub meta: StoredMeta,
    pub account_meta: AccountMeta,
    pub data: &'a [u8],
    pub offset: usize,
    pub stored_size: usize,
    pub hash: crate::pubkey::Hash,
}

/// What a record holds, as mathematical values.
pub struct AccountRecord {
    pub write_version: u64,
    pub data_len: u64,
    pub pubkey: Seq<u8>,
    pub lamports: u64,
    pub rent_epoch: u64,
    pub owner: Seq<u8>,
    pub executable: bool,
    pub hash: Seq<u8>,
    pub data: Seq<u8>,
    pub offset: int,
    pub stored_size: int,
}

impl<'a> View for StoredAccountMeta<'a> {
    type V = AccountRecord;

    open spec fn view(&self) -> AccountRecord {
        AccountRecord {
            write_version: self.meta.write_version,
            data_len: self.meta.data_len,
            pubkey: self.meta.pubkey@,
            lamports: self.account_meta.lamports,
            rent_epoch: self.account_meta.rent_epoch,
            owner: self.account_meta.owner@,
            executable: self.account_meta.executable,
            hash: self.hash@,
            data: self.data@,
            offset: self.offset as int,
            stored_size: self.stored_size as int,
        }
    }
}

/// Where the parts of the record at some offset lie.
pub struct RecordLayout {
    pub meta_at: int,
    pub account_meta_at: int,
    pub hash_at: int,
    pub data_at: int,
    pub data_end: int,
    /// The offset of the record that follows.
    pub next: int,
}

/// The layout of the record that starts at `offset`, or `None` when one of its
/// four parts would reach past the end of `bytes`.
pub open spec fn record_layout(bytes: Seq<u8>, offset: int) -> Option<RecordLayout> {
    let account_meta_at = align8(offset + STORED_META_LEN);
    let hash_at = align8(account_meta_at + ACCOUNT_META_LEN);
    let data_at = align8(hash_at + HASH_LEN);
    let data_end = data_at + le_u64(bytes, offset + 8);
    if offset < 0 || offset + STORED_META_LEN > bytes.len() {
        None
    } else if account_meta_at + ACCOUNT_META_LEN > bytes.len() {
        None
    } else if hash_at + HASH_LEN > bytes.len() {
        None
    } else if data_end > bytes.len() {
        None
    } else {
        Some(
            RecordLayout {
                meta_at: offset,
                account_meta_at,
                hash_at,
                data_at,
                data_end,
                next: align8(data_end),
            },
        )
    }
}

/// The fields of the record laid out as `l` in `bytes`.
pub open spec fn decode_record(bytes: Seq<u8>, l: RecordLayout) -> AccountRecord {
    AccountRecord {
        write_version: le_u64(bytes, l.meta_at),
        data_len: le_u64(bytes, l.meta_at + 8),
        pubkey: bytes.subrange(l.meta_at + 16, l.meta_at + 48),
        lamports: le_u64(bytes, l.account_meta_at),
        rent_epoch: le_u64(bytes, l.account_meta_at + 8),
        owner: bytes.subrange(l.account_meta_at + 16, l.account_meta_at + 48),
        executable: bytes[l.account_meta_at + 48] != 0,
        hash: bytes.subrange(l.hash_at, l.hash_at + 32),
        data: bytes.subrange(l.data_at, l.data_end),
        offset: l.meta_at,
        stored_size: l.next - l.meta_at,
    }
}

/// The record at `offset` and the offset of the next one, or `None` when no
/// full record fits there.
pub open spec fn record_at(bytes: Seq<u8>, offset: int) -> Option<(AccountRecord, int)> {
    match record_layout(bytes, offset) {
        Some(l) => Some((decode_record(bytes, l), l.next)),
        None => None,
    }
}

/// The offsets of the records met when reading from `from` until no full
/// record fits.
pub open spec fn record_offsets(bytes: Seq<u8>, from: int) -> Seq<int>
    decreases bytes.len() + 8 - from,
{
    match record_layout(bytes, from) {
        Some(l) => seq![from] + record_offsets(bytes, l.next),
        None => Seq::empty(),
    }
}

/// The offset at which reading from `from` stops: the first one that holds no
/// full record.
pub open spec fn end_offset(bytes: Seq<u8>, from: int) -> int
    decreases bytes.len() + 8 - from,
{
    match record_layout(bytes, from) {
        Some(l) => end_offset(bytes, l.next),
        None => from,
    }
}

/// The sum of the stored sizes of the records read from `from`.
pub open spec fn stored_sizes(bytes: Seq<u8>, from: int) -> int
    decreases bytes.len() + 8 - from,
{
    match record_layout(bytes, from) {
        Some(l) => l.next - from + stored_sizes(bytes, l.next),
        None => 0,
    }
}

/// Whether the fixed-size parts of a record fit at `offset` while the payload
/// they declare does not.
pub open spec fn payload_overruns(bytes: Seq<u8>, offset: int) -> bool {
    &&& 0 <= offset
    &&& align8(align8(align8(offset + STORED_META_LEN) + ACCOUNT_META_LEN) + HASH_LEN)
        <= bytes.len()
    &&& record_layout(bytes, offset) is None
}

/// A record is at least as long as its fixed-size parts, and the next record
/// starts on an 8-byte boundary less than one word past the payload.
#[verifier::rlimit(50)]
pub proof fn lemma_record_advances(bytes: Seq<u8>, offset: int)
    requires
        record_layout(bytes, offset) is Some,
    ensures
        ({
            let l = record_layout(bytes, offset)->0;
            &&& offset + MIN_RECORD_LEN <= l.next
            &&& l.data_end <= bytes.len()
            &&& l.data_end <= l.next < l.data_end + 8
            &&& l.next % 8 == 0
            &&& bytes.len() % 8 == 0 ==> l.next <= bytes.len()
            &&& offset % 8 == 0 ==> l.data_at == offset + MIN_RECORD_LEN
        }),
{
    let account_meta_at = align8(offset + STORED_META_LEN);
    let hash_at = align8(account_meta_at + ACCOUNT_META_LEN);
    let data_at = align8(hash_at + HASH_LEN);
    let data_end = data_at + le_u64(bytes, offset + 8);
    lemma_align8(offset + STORED_META_LEN);
    lemma_align8(account_meta_at + ACCOUNT_META_LEN);
    lemma_align8(hash_at + HASH_LEN);
    lemma_align8(data_end);
    lemma_align8(bytes.len() as int);
    lemma_align8_monotone(data_end, bytes.len() as int);
}

/// Reading stops at or after the place where it starts.
#[verifier::rlimit(50)]
pub proof fn lemma_end_offset_bounds(bytes: Seq<u8>, from: int)
    requires
        0 <= from,
    ensures
        from <= end_offset(bytes, from),
        record_layout(bytes, end_offset(bytes, from)) is None,
        end_offset(bytes, from) == from || end_offset(bytes, from) < bytes.len() + 8,
        from % 8 == 0 ==> end_offset(bytes, from) % 8 == 0,
        bytes.len() % 8 == 0 && from <= bytes.len() ==> end_offset(bytes, from) <= bytes.len(),
    decreases bytes.len() + 8 - from,
{
    if record_layout(bytes, from) is Some {
        lemma_record_advances(bytes, from);
        lemma_end_offset_bounds(bytes, record_layout(bytes, from)->0.next);
    }
}

/// The records read from `from` lie one after another: each starts where the
/// one before it ends, the first starts at `from`, and the last ends where
/// reading stops.
#[verifier::rlimit(50)]
pub proof fn lemma_record_offsets_chain(bytes: Seq<u8>, from: int)
    requires
        0 <= from,
    ensures
        ({
            let offsets = record_offsets(bytes, from);
            &&& offsets.len() > 0 ==> offsets[0] == from
            &&& offsets.len() == 0 ==> end_offset(bytes, from) == from
            &&& forall|i: int|
                0 <= i < offsets.len() ==> (#[trigger] record_layout(bytes, offsets[i])) is Some
            &&& forall|i: int|
                0 <= i < offsets.len() - 1 ==> offsets[i + 1] == (#[trigger] record_layout(
                    bytes,
                    offsets[i],
                ))->0.next
            &&& offsets.len() > 0 ==> end_offset(bytes, from) == record_layout(
                bytes,
                offsets.last(),
            )->0.next
        }),
    decreases bytes.len() + 8 - from,
{
    if record_layout(bytes, from) is Some {
        let next = record_layout(bytes, from)->0.next;
        lemma_record_advances(bytes, from);
        lemma_record_offsets_chain(bytes, next);
        let rest = record_offsets(bytes, next);
        let offsets = record_offsets(bytes, from);
        assert(offsets == seq![from] + rest);
        assert forall|i: int| 0 <= i < offsets.len() implies (#[trigger] record_layout(
            bytes,
            offsets[i],
        )) is Some by {
            if i > 0 {
                assert(offsets[i] == rest[i - 1]);
            }
        }
        assert forall|i: int| 0 <= i < offsets.len() - 1 implies offsets[i + 1] == (
        #[trigger] record_layout(bytes, offsets[i]))->0.next by {
            if i > 0 {
                assert(offsets[i] == rest[i - 1]);
                assert(offsets[i + 1] == rest[i]);
            } else {
                assert(offsets[1] == rest[0]);
            }
        }
        if rest.len() > 0 {
            assert(offsets.last() == rest.last());
        }
    }
}

/// The stored sizes of the records read from `from` add up to the distance
/// to the offset where reading stops.
pub proof fn lemma_stored_sizes(bytes: Seq<u8>, from: int)
    requires
        0 <= from,
    ensures
        stored_sizes(bytes, from) == end_offset(bytes, from) - from,
    decreases bytes.len() + 8 - from,
{
    if record_layout(bytes, from) is Some {
        lemma_record_advances(bytes, from);
        lemma_stored_sizes(bytes, record_layout(bytes, from)->0.next);
    }
}

/// The records of an AppendVec depend on the first bytes of its source
/// alone, as many as the manifest declares: two sources that agree on them
/// give the same records, whatever follows in either.
pub proof fn lemma_source_tail_ignored(a: Seq<u8>, b: Seq<u8>, current_len: int)
    requires
        0 <= current_len <= a.len(),
        current_len <= b.len(),
        forall|i: int| 0 <= i < current_len ==> a[i] == b[i],
    ensures
        a.take(current_len) == b.take(current_len),
        record_offsets(a.take(current_len), 0) == record_offsets(b.take(current_len), 0),
        forall|at: int| record_at(a.take(current_len), at) == record_at(b.take(current_len), at),
{
    assert(a.take(current_len) =~= b.take(current_len));
}

/// Reading a buffer from its start ends after finitely many records, whose
/// stored sizes add up to the offset at which reading stops. That offset is a
/// multiple of eight and at most the buffer's length rounded up to the next
/// word. It lies past the end of the buffer only where the payload of the
/// last record ends in a last word that the buffer does not fill. Unless the
/// fixed-size parts found there declare a payload that overruns the buffer,
/// fewer bytes than the smallest record remain behind it.
#[verifier::rlimit(50)]
pub proof fn lemma_iteration_ends(bytes: Seq<u8>)
    ensures
        ({
            let end = end_offset(bytes, 0);
            &&& stored_sizes(bytes, 0) == end
            &&& record_offsets(bytes, 0).len() * MIN_RECORD_LEN <= end
            &&& end % 8 == 0
            &&& end <= align8(bytes.len() as int)
            &&& end > bytes.len() ==> {
                &&& bytes.len() % 8 != 0
                &&& end == align8(bytes.len() as int)
                &&& record_offsets(bytes, 0).len() > 0
            }
            &&& record_layout(bytes, end) is None
            &&& !payload_overruns(bytes, end) ==> end + MIN_RECORD_LEN > bytes.len()
        }),
{
    lemma_end_offset_bounds(bytes, 0);
    lemma_records_fill(bytes, 0);
    lemma_stored_sizes(bytes, 0);
    let end = end_offset(bytes, 0);
    lemma_word_below(end, bytes.len() as int);
    lemma_fixed_parts_aligned(end);
    if end > bytes.len() {
        lemma_word_above(end, bytes.len() as int);
        lemma_record_offsets_chain(bytes, 0);
    }
}

/// The only multiple of eight between `n` and `n` rounded up is the latter,
/// and there is one only if `n` is no multiple of eight.
proof fn lemma_word_above(end: int, n: int)
    requires
        0 <= n < end <= align8(n),
        end % 8 == 0,
    ensures
        n % 8 != 0,
        end == align8(n),
{
}

/// A multiple of eight that is less than a word past `n` is at most `n`
/// rounded up.
proof fn lemma_word_below(end: int, n: int)
    requires
        0 <= n,
        end % 8 == 0,
        end == 0 || end < n + 8,
    ensures
        end <= align8(n),
{
}

/// At an 8-byte boundary the fixed-size parts of a record take 136 bytes.
proof fn lemma_fixed_parts_aligned(offset: int)
    requires
        0 <= offset,
        offset % 8 == 0,
    ensures
        align8(align8(align8(offset + STORED_META_LEN) + ACCOUNT_META_LEN) + HASH_LEN) == offset
            + MIN_RECORD_LEN,
{
}

/// Between `from` and the offset where reading stops there is room for each
/// record's fixed-size parts.
proof fn lemma_records_fill(bytes: Seq<u8>, from: int)
    requires
        0 <= from,
    ensures
        from + record_offsets(bytes, from).len() * MIN_RECORD_LEN <= end_offset(bytes, from),
    decreases bytes.len() + 8 - from,
{
    if record_layout(bytes, from) is Some {
        let next = record_layout(bytes, from)->0.next;
        lemma_record_advances(bytes, from);
        lemma_records_fill(bytes, next);
        let rest = record_offsets(bytes, next);
        assert(record_offsets(bytes, from).len() == rest.len() + 1);
        assert((rest.len() + 1) * MIN_RECORD_LEN == rest.len() * MIN_RECORD_LEN + MIN_RECORD_LEN)
            by (nonlinear_arith);
    }
}

/// The reason given for an AppendVec whose source ends before the length that
/// the manifest declares.
pub const SOURCE_TOO_SHORT: &'static str = "AppendVec source is shorter than its manifest length";

/// The reason given for an AppendVec whose length leaves no room in the
/// address space.
pub const LENGTH_TOO_LARGE: &'static str = "AppendVec length exceeds the address space";

/// A buffer of account records. Its length is the length that the manifest
/// declares for it; bytes that the source holds beyond are not kept.
#[derive(Debug)]
pub struct AppendVec {
    data: Vec<u8>,
}

impl View for AppendVec {
    type V = Seq<u8>;

    closed spec fn view(&self) -> Seq<u8> {
        self.data@
    }
}

fn align_up(n: usize) -> (r: usize)
    requires
        n + 7 <= usize::MAX,
    ensures
        r == align8(n as int),
{
    (n + 7) / 8 * 8
}

impl AppendVec {
    #[verifier::type_invariant]
    spec fn padding_fits(&self) -> bool {
        self.data@.len() + 7 <= usize::MAX
    }

    /// Builds an AppendVec from the bytes read from its source and the length
    /// that the manifest declares. The first `current_len` bytes are kept. A
    /// source shorter than `current_len` is an error, and so is a length that
    /// leaves no room for padding in the address space.
    pub fn new_from_bytes(bytes: Vec<u8>, current_len: usize) -> (r: Result<
        AppendVec,
        SnapshotError,
    >)
        ensures
            r is Ok <==> current_len <= bytes@.len() && current_len + 7 <= usize::MAX,
            r matches Ok(v) ==> v@ == bytes@.take(current_len as int),
            r matches Err(e) ==> (e matches SnapshotError::IOError(reason) && reason@ == (
            if current_len > bytes@.len() {
                SOURCE_TOO_SHORT@
            } else {
                LENGTH_TOO_LARGE@
            })),
    {
        if current_len > bytes.len() {
            return Err(SnapshotError::IOError(SOURCE_TOO_SHORT.to_owned()));
        }
        if current_len > usize::MAX - 7 {
            return Err(SnapshotError::IOError(LENGTH_TOO_LARGE.to_owned()));
        }
        let mut data = bytes;
        data.truncate(current_len);
        Ok(AppendVec { data })
    }

    /// The number of bytes that hold records.
    pub fn len(&self) -> (n: usize)
        ensures
            n == self@.len(),
    {
        self.data.len()
    }

    pub fn is_empty(&self) -> (b: bool)
        ensures
            b == (self@.len() == 0),
    {
        self.data.len() == 0
    }

    /// The record at `offset` and the offset of the record behind it, or
    /// `None` if no full record fits at `offset`.
    #[verifier::rlimit(50)]
    pub fn get_account<'a>(&'a self, offset: usize) -> (r: Option<(StoredAccountMeta<'a>, usize)>)
        ensures
            r is Some <==> record_at(self@, offset as int) is Some,
            r matches Some((account, next)) ==> record_at(self@, offset as int) == Some(
                (account@, next as int),
            ),
    {
        proof {
            use_type_invariant(self);
        }
        let buf = self.data.as_slice();
        let len = buf.len();
        if len < STORED_META_LEN || offset > len - STORED_META_LEN {
            return None;
        }
        let account_meta_at = align_up(offset + STORED_META_LEN);
        if account_meta_at > len || len - account_meta_at < ACCOUNT_META_LEN {
            return None;
        }
        let hash_at = align_up(account_meta_at + ACCOUNT_META_LEN);
        if hash_at > len || len - hash_at < HASH_LEN {
            return None;
        }
        let data_at = align_up(hash_at + HASH_LEN);
        let data_len = read_u64_le(buf, offset + 8);
        if data_at > len || data_len > (len - data_at) as u64 {
            return None;
        }
        let data_end = data_at + data_len as usize;
        let next = align_up(data_end);
        let account = StoredAccountMeta {
            meta: StoredMeta {
                write_version: read_u64_le(buf, offset),
                data_len,
                pubkey: Pubkey(read_array32(buf, offset + 16)),
            },
            account_meta: AccountMeta {
                lamports: read_u64_le(buf, account_meta_at),
                rent_epoch: read_u64_le(buf, account_meta_at + 8),
                owner: Pubkey(read_array32(buf, account_meta_at + 16)),
                executable: buf[account_meta_at + 48] != 0,
            },
            data: slice_subrange(buf, data_at, data_end),
            offset,
            stored_size: next - offset,
            hash: crate::pubkey::Hash(read_array32(buf, hash_at)),
        };
        Some((account, next))
    }
}

} // verus!
