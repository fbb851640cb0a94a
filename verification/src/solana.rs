//! The accounts-DB index of a bank manifest: which AppendVecs belong to which
//! slot, and how many bytes of each hold records.

use crate::append_vec::AppendVec;
use crate::bytes::{le_u64, read_array32, read_u64_le};
use crate::{append_vec_name, parse_append_vec_name, SnapshotError};
use std::collections::HashMap;
use vstd::prelude::*;
use vstd::string::StringExecFns;

verus! {

broadcast use vstd::std_specs::hash::group_hash_axioms;

/// One AppendVec of a slot, as the manifest lists it.
#[derive(Clone, Copy, Debug)]
pub struct SerializableAccountStorageEntry {
    pub id: u64,
    pub accounts_current_len: u64,
}

#[derive(Clone, Copy, Debug)]
pub struct BankHashStats {
    pub num_updated_accounts: u64,
    pub num_removed_accounts: u64,
    pub num_lamports_stored: u64,
    pub total_data_len: u64,
    pub num_executable_accounts: u64,
}

#[derive(Clone, Copy, Debug)]
pub struct BankHashInfo {
    pub hash: crate::pubkey::Hash,
    pub snapshot_hash: crate::pubkey::Hash,
    pub stats: BankHashStats,
}

/// The part of the manifest that follows the bank.
#[derive(Debug)]
pub struct AccountsDbFields {
    /// The AppendVecs of each slot.
    pub storages: HashMap<u64, Vec<SerializableAccountStorageEntry>>,
    pub write_version: u64,
    pub slot: u64,
    pub bank_hash_info: BankHashInfo,
    /// Slots that were roots within the last epoch. Older manifests have none.
    pub historical_roots: Vec<u64>,
    /// Roots of the last epoch whose hash is kept. Older manifests have none.
    pub historical_roots_with_hash: Vec<(u64, crate::pubkey::Hash)>,
}

/// The first entry with the given id.
pub open spec fn find_entry(
    entries: Seq<SerializableAccountStorageEntry>,
    id: u64,
) -> Option<SerializableAccountStorageEntry>
    decreases entries.len(),
{
    if entries.len() == 0 {
        None
    } else if entries[0].id == id {
        Some(entries[0])
    } else {
        find_entry(entries.drop_first(), id)
    }
}

/// What is to be done with a file of the accounts directory.
#[derive(Clone, Copy, Debug, PartialEq, Eq, Structural)]
pub enum AppendVecPlan {
    /// The name is not that of an AppendVec: the file is passed over.
    NotAnAppendVec,
    /// The manifest does not list the AppendVec.
    Unexpected { slot: u64, id: u64 },
    /// The manifest lists the AppendVec with this length.
    Load { slot: u64, id: u64, current_len: u64 },
}

impl AccountsDbFields {
    /// The AppendVecs that the manifest lists for `slot`.
    pub open spec fn entries_of(&self, slot: u64) -> Seq<SerializableAccountStorageEntry> {
        if self.storages@.contains_key(slot) {
            self.storages@[slot]@
        } else {
            Seq::empty()
        }
    }

    /// The length that the manifest declares for the AppendVec `(slot, id)`.
    pub open spec fn declared_len(&self, slot: u64, id: u64) -> Option<u64> {
        match find_entry(self.entries_of(slot), id) {
            Some(entry) => Some(entry.accounts_current_len),
            None => None,
        }
    }

    /// What the manifest says of the file named `name`.
    pub open spec fn plan_of(&self, name: Seq<u8>) -> AppendVecPlan {
        match append_vec_name(name) {
            None => AppendVecPlan::NotAnAppendVec,
            Some((slot, id)) => match self.declared_len(slot, id) {
                None => AppendVecPlan::Unexpected { slot, id },
                Some(current_len) => AppendVecPlan::Load { slot, id, current_len },
            },
        }
    }

    /// A manifest tail with the given AppendVec lists and nothing else.
    pub fn new(storages: HashMap<u64, Vec<SerializableAccountStorageEntry>>) -> (fields:
        AccountsDbFields)
        ensures
            fields.storages == storages,
            fields.write_version == 0,
            fields.slot == 0,
            fields.historical_roots@.len() == 0,
            fields.historical_roots_with_hash@.len() == 0,
    {
        AccountsDbFields {
            storages,
            write_version: 0,
            slot: 0,
            bank_hash_info: BankHashInfo {
                hash: crate::pubkey::Hash([0u8; 32]),
                snapshot_hash: crate::pubkey::Hash([0u8; 32]),
                stats: BankHashStats {
                    num_updated_accounts: 0,
                    num_removed_accounts: 0,
                    num_lamports_stored: 0,
                    total_data_len: 0,
                    num_executable_accounts: 0,
                },
            },
            historical_roots: Vec::new(),
            historical_roots_with_hash: Vec::new(),
        }
    }

    /// Looks up the length that the manifest declares for an AppendVec.
    pub fn current_len(&self, slot: u64, id: u64) -> (r: Option<u64>)
        ensures
            r == self.declared_len(slot, id),
    {
        match self.storages.get(&slot) {
            None => None,
            Some(entries) => {
                let mut i: usize = 0;
                assert(entries@.skip(0) =~= entries@);
                while i < entries.len()
                    invariant
                        i <= entries@.len(),
                        self.entries_of(slot) == entries@,
                        find_entry(entries@, id) == find_entry(entries@.skip(i as int), id),
                    decreases entries@.len() - i,
                {
                    if entries[i].id == id {
                        return Some(entries[i].accounts_current_len);
                    }
                    assert(entries@.skip(i as int).drop_first() =~= entries@.skip(i + 1));
                    i += 1;
                }
                None
            },
        }
    }

    /// Decides from its name what to do with a file of the accounts
    /// directory, or with an archive entry behind the manifest.
    pub fn plan_append_vec(&self, name: &[u8]) -> (plan: AppendVecPlan)
        ensures
            plan == self.plan_of(name@),
    {
        match parse_append_vec_name(name) {
            None => AppendVecPlan::NotAnAppendVec,
            Some((slot, id)) => match self.current_len(slot, id) {
                None => AppendVecPlan::Unexpected { slot, id },
                Some(current_len) => AppendVecPlan::Load { slot, id, current_len },
            },
        }
    }

    /// Builds the AppendVec `(slot, id)` from the bytes of its file or archive
    /// entry. The manifest must list it, and the AppendVec holds exactly the
    /// number of bytes that the manifest declares.
    pub fn open_append_vec(&self, slot: u64, id: u64, bytes: Vec<u8>) -> (r: Result<
        AppendVec,
        SnapshotError,
    >)
        ensures
            r is Ok <==> (self.declared_len(slot, id) matches Some(n) && n <= bytes@.len() && n + 7
                <= usize::MAX),
            r matches Ok(v) ==> v@ == bytes@.take(self.declared_len(slot, id)->0 as int),
            r matches Err(e) ==> (e is UnexpectedAppendVec <==> self.declared_len(slot, id)
                is None),
            r matches Err(e) ==> (e is IOError <==> self.declared_len(slot, id) is Some),
            r matches Err(SnapshotError::IOError(reason)) ==> reason@ == (if self.declared_len(
                slot,
                id,
            )->0 <= usize::MAX && self.declared_len(slot, id)->0 > bytes@.len() {
                crate::append_vec::SOURCE_TOO_SHORT@
            } else {
                crate::append_vec::LENGTH_TOO_LARGE@
            }),
    {
        match self.current_len(slot, id) {
            None => Err(SnapshotError::UnexpectedAppendVec),
            Some(current_len) => {
                if current_len > usize::MAX as u64 {
                    return Err(
                        SnapshotError::IOError(crate::append_vec::LENGTH_TOO_LARGE.to_owned()),
                    );
                }
                AppendVec::new_from_bytes(bytes, current_len as usize)
            },
        }
    }
}

/// The most bytes that one value of the manifest may take: 32 GiB.
pub const MAX_STREAM_SIZE: u64 = 0x8_0000_0000;

#[derive(Clone, Copy, Debug, PartialEq, Eq, Structural)]
pub enum DeserializeErrorKind {
    /// The bytes end inside the value.
    UnexpectedEof,
    /// The value takes more bytes than one value may.
    SizeLimit,
    /// The bytes encode no value of the kind that is read.
    InvalidData,
}

/// Why the manifest could not be read, and the offset of the field at which
/// reading failed.
#[derive(Clone, Copy, Debug, PartialEq, Eq, Structural)]
pub struct DeserializeError {
    pub offset: usize,
    pub kind: DeserializeErrorKind,
}

impl DeserializeError {
    /// The words for the kind of error.
    pub open spec fn message_text(&self) -> Seq<char> {
        match self.kind {
            DeserializeErrorKind::UnexpectedEof => "io error: unexpected end of file"@,
            DeserializeErrorKind::SizeLimit => "the size limit has been reached"@,
            DeserializeErrorKind::InvalidData => "invalid data"@,
        }
    }

    pub fn message(&self) -> (text: String)
        ensures
            text@ == self.message_text(),
    {
        match self.kind {
            DeserializeErrorKind::UnexpectedEof => String::from_str(
                "io error: unexpected end of file",
            ),
            DeserializeErrorKind::SizeLimit => String::from_str("the size limit has been reached"),
            DeserializeErrorKind::InvalidData => String::from_str("invalid data"),
        }
    }

    pub fn into_snapshot_error(self) -> (e: SnapshotError)
        ensures
            e matches SnapshotError::BincodeError(reason) && reason@ == self.message_text(),
    {
        SnapshotError::BincodeError(self.message())
    }
}

pub struct BankHashInfoView {
    pub hash: Seq<u8>,
    pub snapshot_hash: Seq<u8>,
    pub stats: BankHashStats,
}

impl View for BankHashInfo {
    type V = BankHashInfoView;

    open spec fn view(&self) -> BankHashInfoView {
        BankHashInfoView { hash: self.hash@, snapshot_hash: self.snapshot_hash@, stats: self.stats }
    }
}

/// What the manifest holds behind the bank, as mathematical values.
pub struct AccountsDbFieldsView {
    pub storages: Map<u64, Seq<SerializableAccountStorageEntry>>,
    pub write_version: u64,
    pub slot: u64,
    pub bank_hash_info: BankHashInfoView,
    pub historical_roots: Seq<u64>,
    pub historical_roots_with_hash: Seq<(u64, Seq<u8>)>,
}

/// The AppendVec lists of a map, as sequences.
pub open spec fn storage_views(
    storages: Map<u64, Vec<SerializableAccountStorageEntry>>,
) -> Map<u64, Seq<SerializableAccountStorageEntry>> {
    Map::new(|slot: u64| storages.contains_key(slot), |slot: u64| storages[slot]@)
}

/// The views of a list of roots with their hashes.
pub open spec fn hashed_root_views(roots: Seq<(u64, crate::pubkey::Hash)>) -> Seq<(u64, Seq<u8>)> {
    Seq::new(roots.len(), |i: int| (roots[i].0, roots[i].1@))
}

impl View for AccountsDbFields {
    type V = AccountsDbFieldsView;

    open spec fn view(&self) -> AccountsDbFieldsView {
        AccountsDbFieldsView {
            storages: storage_views(self.storages@),
            write_version: self.write_version,
            slot: self.slot,
            bank_hash_info: self.bank_hash_info@,
            historical_roots: self.historical_roots@,
            historical_roots_with_hash: hashed_root_views(self.historical_roots_with_hash@),
        }
    }
}

/// Why `k` bytes cannot be read at `at` for a value that starts at `start`,
/// if they cannot: the value would grow past the size limit, or the bytes
/// end before.
pub open spec fn read_error(s: Seq<u8>, start: int, at: int, k: int) -> Option<DeserializeError> {
    if at - start + k > MAX_STREAM_SIZE {
        Some(DeserializeError { offset: at as usize, kind: DeserializeErrorKind::SizeLimit })
    } else if at + k > s.len() {
        Some(DeserializeError { offset: at as usize, kind: DeserializeErrorKind::UnexpectedEof })
    } else {
        None
    }
}

/// A 64-bit integer, little-endian.
pub open spec fn take_word(s: Seq<u8>, start: int, at: int) -> Result<(u64, int), DeserializeError> {
    match read_error(s, start, at, 8) {
        Some(e) => Err(e),
        None => Ok((le_u64(s, at), at + 8)),
    }
}

/// A 32-byte hash.
pub open spec fn take_hash(s: Seq<u8>, start: int, at: int) -> Result<
    (Seq<u8>, int),
    DeserializeError,
> {
    match read_error(s, start, at, 32) {
        Some(e) => Err(e),
        None => Ok((s.subrange(at, at + 32), at + 32)),
    }
}

/// One AppendVec of a slot: its id, then its length.
pub open spec fn take_entry(s: Seq<u8>, start: int, at: int) -> Result<
    (SerializableAccountStorageEntry, int),
    DeserializeError,
> {
    match take_word(s, start, at) {
        Err(e) => Err(e),
        Ok((id, p)) => match take_word(s, start, p) {
            Err(e) => Err(e),
            Ok((accounts_current_len, next)) => Ok(
                (SerializableAccountStorageEntry { id, accounts_current_len }, next),
            ),
        },
    }
}

/// `n` more AppendVecs behind those in `acc`.
pub open spec fn take_entries(
    s: Seq<u8>,
    start: int,
    at: int,
    n: nat,
    acc: Seq<SerializableAccountStorageEntry>,
) -> Result<(Seq<SerializableAccountStorageEntry>, int), DeserializeError>
    decreases n,
{
    if n == 0 {
        Ok((acc, at))
    } else {
        match take_entry(s, start, at) {
            Err(e) => Err(e),
            Ok((entry, next)) => take_entries(s, start, next, (n - 1) as nat, acc.push(entry)),
        }
    }
}

/// A list of AppendVecs: their number as a 64-bit integer, then each.
pub open spec fn take_entry_list(s: Seq<u8>, start: int, at: int) -> Result<
    (Seq<SerializableAccountStorageEntry>, int),
    DeserializeError,
> {
    match take_word(s, start, at) {
        Err(e) => Err(e),
        Ok((n, p)) => take_entries(s, start, p, n as nat, Seq::empty()),
    }
}

/// `n` more slots with their AppendVec lists, added to `acc`. A slot that
/// comes twice keeps its later list.
pub open spec fn take_storages(
    s: Seq<u8>,
    start: int,
    at: int,
    n: nat,
    acc: Map<u64, Seq<SerializableAccountStorageEntry>>,
) -> Result<(Map<u64, Seq<SerializableAccountStorageEntry>>, int), DeserializeError>
    decreases n,
{
    if n == 0 {
        Ok((acc, at))
    } else {
        match take_word(s, start, at) {
            Err(e) => Err(e),
            Ok((slot, p)) => match take_entry_list(s, start, p) {
                Err(e) => Err(e),
                Ok((entries, next)) => take_storages(
                    s,
                    start,
                    next,
                    (n - 1) as nat,
                    acc.insert(slot, entries),
                ),
            },
        }
    }
}

/// The map from slots to AppendVec lists: the number of slots as a 64-bit
/// integer, then each slot with its list.
pub open spec fn take_storage_map(s: Seq<u8>, start: int, at: int) -> Result<
    (Map<u64, Seq<SerializableAccountStorageEntry>>, int),
    DeserializeError,
> {
    match take_word(s, start, at) {
        Err(e) => Err(e),
        Ok((n, p)) => take_storages(s, start, p, n as nat, Map::empty()),
    }
}

/// Five counters.
pub open spec fn take_stats(s: Seq<u8>, start: int, at: int) -> Result<
    (BankHashStats, int),
    DeserializeError,
> {
    match take_word(s, start, at) {
        Err(e) => Err(e),
        Ok((num_updated_accounts, p1)) => match take_word(s, start, p1) {
            Err(e) => Err(e),
            Ok((num_removed_accounts, p2)) => match take_word(s, start, p2) {
                Err(e) => Err(e),
                Ok((num_lamports_stored, p3)) => match take_word(s, start, p3) {
                    Err(e) => Err(e),
                    Ok((total_data_len, p4)) => match take_word(s, start, p4) {
                        Err(e) => Err(e),
                        Ok((num_executable_accounts, next)) => Ok(
                            (
                                BankHashStats {
                                    num_updated_accounts,
                                    num_removed_accounts,
                                    num_lamports_stored,
                                    total_data_len,
                                    num_executable_accounts,
                                },
                                next,
                            ),
                        ),
                    },
                },
            },
        },
    }
}

/// Two hashes and the counters.
pub open spec fn take_bank_hash_info(s: Seq<u8>, start: int, at: int) -> Result<
    (BankHashInfoView, int),
    DeserializeError,
> {
    match take_hash(s, start, at) {
        Err(e) => Err(e),
        Ok((hash, p1)) => match take_hash(s, start, p1) {
            Err(e) => Err(e),
            Ok((snapshot_hash, p2)) => match take_stats(s, start, p2) {
                Err(e) => Err(e),
                Ok((stats, next)) => Ok((BankHashInfoView { hash, snapshot_hash, stats }, next)),
            },
        },
    }
}

/// `n` more roots behind those in `acc`.
pub open spec fn take_roots(s: Seq<u8>, start: int, at: int, n: nat, acc: Seq<u64>) -> Result<
    (Seq<u64>, int),
    DeserializeError,
>
    decreases n,
{
    if n == 0 {
        Ok((acc, at))
    } else {
        match take_word(s, start, at) {
            Err(e) => Err(e),
            Ok((root, next)) => take_roots(s, start, next, (n - 1) as nat, acc.push(root)),
        }
    }
}

/// `n` more roots with their hashes behind those in `acc`.
pub open spec fn take_hashed_roots(
    s: Seq<u8>,
    start: int,
    at: int,
    n: nat,
    acc: Seq<(u64, Seq<u8>)>,
) -> Result<(Seq<(u64, Seq<u8>)>, int), DeserializeError>
    decreases n,
{
    if n == 0 {
        Ok((acc, at))
    } else {
        match take_word(s, start, at) {
            Err(e) => Err(e),
            Ok((root, p)) => match take_hash(s, start, p) {
                Err(e) => Err(e),
                Ok((hash, next)) => take_hashed_roots(
                    s,
                    start,
                    next,
                    (n - 1) as nat,
                    acc.push((root, hash)),
                ),
            },
        }
    }
}

/// A list at the tail of the manifest, which older manifests lack: where the
/// bytes end inside it, the list is empty and nothing is left to read.
pub open spec fn or_empty_at_eof<T>(
    s: Seq<u8>,
    list: Result<(Seq<T>, int), DeserializeError>,
) -> Result<(Seq<T>, int), DeserializeError> {
    match list {
        Err(e) => if e.kind is UnexpectedEof {
            Ok((Seq::empty(), s.len() as int))
        } else {
            Err(e)
        },
        Ok(v) => Ok(v),
    }
}

pub open spec fn take_root_list(s: Seq<u8>, start: int, at: int) -> Result<
    (Seq<u64>, int),
    DeserializeError,
> {
    or_empty_at_eof(
        s,
        match take_word(s, start, at) {
            Err(e) => Err(e),
            Ok((n, p)) => take_roots(s, start, p, n as nat, Seq::empty()),
        },
    )
}

pub open spec fn take_hashed_root_list(s: Seq<u8>, start: int, at: int) -> Result<
    (Seq<(u64, Seq<u8>)>, int),
    DeserializeError,
> {
    or_empty_at_eof(
        s,
        match take_word(s, start, at) {
            Err(e) => Err(e),
            Ok((n, p)) => take_hashed_roots(s, start, p, n as nat, Seq::empty()),
        },
    )
}

/// The part of the manifest behind the bank, read from `start`: the map of
/// AppendVecs, the write version, the slot, the bank hash info and the two
/// lists of roots. Integers are 64 bits wide and little-endian, and a list
/// starts with the number of its items.
pub open spec fn accounts_db_fields_at(s: Seq<u8>, start: int) -> Result<
    (AccountsDbFieldsView, int),
    DeserializeError,
> {
    match take_storage_map(s, start, start) {
        Err(e) => Err(e),
        Ok((storages, p1)) => match take_word(s, start, p1) {
            Err(e) => Err(e),
            Ok((write_version, p2)) => match take_word(s, start, p2) {
                Err(e) => Err(e),
                Ok((slot, p3)) => match take_bank_hash_info(s, start, p3) {
                    Err(e) => Err(e),
                    Ok((bank_hash_info, p4)) => match take_root_list(s, start, p4) {
                        Err(e) => Err(e),
                        Ok((historical_roots, p5)) => match take_hashed_root_list(s, start, p5) {
                            Err(e) => Err(e),
                            Ok((historical_roots_with_hash, next)) => Ok(
                                (
                                    AccountsDbFieldsView {
                                        storages,
                                        write_version,
                                        slot,
                                        bank_hash_info,
                                        historical_roots,
                                        historical_roots_with_hash,
                                    },
                                    next,
                                ),
                            ),
                        },
                    },
                },
            },
        }
    }
}

/// A position in the manifest while one value of it is read.
pub open spec fn in_value(s: Seq<u8>, start: int, at: int) -> bool {
    0 <= start <= at <= s.len() <= usize::MAX
}

pub(crate) fn check_read(data: &[u8], start: usize, at: usize, k: u64) -> (r: Option<
    DeserializeError,
>)
    requires
        in_value(data@, start as int, at as int),
    ensures
        r == read_error(data@, start as int, at as int, k as int),
        r is None ==> in_value(data@, start as int, at + k),
{
    if k > MAX_STREAM_SIZE || (at - start) as u64 > MAX_STREAM_SIZE - k {
        Some(DeserializeError { offset: at, kind: DeserializeErrorKind::SizeLimit })
    } else if ((data.len() - at) as u64) < k {
        Some(DeserializeError { offset: at, kind: DeserializeErrorKind::UnexpectedEof })
    } else {
        None
    }
}

pub(crate) fn read_word(data: &[u8], start: usize, at: usize) -> (r: Result<(u64, usize), DeserializeError>)
    requires
        in_value(data@, start as int, at as int),
    ensures
        match take_word(data@, start as int, at as int) {
            Ok((v, next)) => r == Ok::<(u64, usize), DeserializeError>((v, next as usize))
                && in_value(data@, start as int, next),
            Err(e) => r == Err::<(u64, usize), DeserializeError>(e),
        },
{
    match check_read(data, start, at, 8) {
        Some(e) => Err(e),
        None => Ok((read_u64_le(data, at), at + 8)),
    }
}

fn read_hash(data: &[u8], start: usize, at: usize) -> (r: Result<
    (crate::pubkey::Hash, usize),
    DeserializeError,
>)
    requires
        in_value(data@, start as int, at as int),
    ensures
        match take_hash(data@, start as int, at as int) {
            Ok((v, next)) => r matches Ok((hash, end)) && hash@ == v && end == next && in_value(
                data@,
                start as int,
                next,
            ),
            Err(e) => r == Err::<(crate::pubkey::Hash, usize), DeserializeError>(e),
        },
{
    match check_read(data, start, at, 32) {
        Some(e) => Err(e),
        None => Ok((crate::pubkey::Hash(read_array32(data, at)), at + 32)),
    }
}

fn read_entry(data: &[u8], start: usize, at: usize) -> (r: Result<
    (SerializableAccountStorageEntry, usize),
    DeserializeError,
>)
    requires
        in_value(data@, start as int, at as int),
    ensures
        match take_entry(data@, start as int, at as int) {
            Ok((v, next)) => r == Ok::<(SerializableAccountStorageEntry, usize), DeserializeError>(
                (v, next as usize),
            ) && in_value(data@, start as int, next),
            Err(e) => r == Err::<(SerializableAccountStorageEntry, usize), DeserializeError>(e),
        },
{
    let (id, p) = match read_word(data, start, at) {
        Ok(x) => x,
        Err(e) => { return Err(e); },
    };
    let (accounts_current_len, next) = match read_word(data, start, p) {
        Ok(x) => x,
        Err(e) => { return Err(e); },
    };
    Ok((SerializableAccountStorageEntry { id, accounts_current_len }, next))
}

fn read_entry_list(data: &[u8], start: usize, at: usize) -> (r: Result<
    (Vec<SerializableAccountStorageEntry>, usize),
    DeserializeError,
>)
    requires
        in_value(data@, start as int, at as int),
    ensures
        match take_entry_list(data@, start as int, at as int) {
            Ok((v, next)) => r matches Ok((entries, end)) && entries@ == v && end == next
                && in_value(data@, start as int, next),
            Err(e) => r == Err::<(Vec<SerializableAccountStorageEntry>, usize), DeserializeError>(
                e,
            ),
        },
{
    let (n, first) = match read_word(data, start, at) {
        Ok(x) => x,
        Err(e) => { return Err(e); },
    };
    let mut entries: Vec<SerializableAccountStorageEntry> = Vec::new();
    let mut pos: usize = first;
    let mut i: u64 = 0;
    while i < n
        invariant
            i <= n,
            in_value(data@, start as int, pos as int),
            take_entry_list(data@, start as int, at as int) == take_entries(
                data@,
                start as int,
                pos as int,
                (n - i) as nat,
                entries@,
            ),
        decreases n - i,
    {
        match read_entry(data, start, pos) {
            Err(e) => {
                return Err(e);
            },
            Ok((entry, next)) => {
                entries.push(entry);
                pos = next;
                i += 1;
            },
        }
    }
    Ok((entries, pos))
}

fn read_storage_map(data: &[u8], start: usize, at: usize) -> (r: Result<
    (HashMap<u64, Vec<SerializableAccountStorageEntry>>, usize),
    DeserializeError,
>)
    requires
        in_value(data@, start as int, at as int),
    ensures
        match take_storage_map(data@, start as int, at as int) {
            Ok((v, next)) => r matches Ok((storages, end)) && storage_views(storages@) == v && end
                == next && in_value(data@, start as int, next),
            Err(e) => r == Err::<
                (HashMap<u64, Vec<SerializableAccountStorageEntry>>, usize),
                DeserializeError,
            >(e),
        },
{
    let (n, first) = match read_word(data, start, at) {
        Ok(x) => x,
        Err(e) => { return Err(e); },
    };
    let mut storages: HashMap<u64, Vec<SerializableAccountStorageEntry>> = HashMap::new();
    let mut pos: usize = first;
    let mut i: u64 = 0;
    assert(storage_views(storages@) =~= Map::empty());
    while i < n
        invariant
            i <= n,
            in_value(data@, start as int, pos as int),
            take_storage_map(data@, start as int, at as int) == take_storages(
                data@,
                start as int,
                pos as int,
                (n - i) as nat,
                storage_views(storages@),
            ),
        decreases n - i,
    {
        let (slot, p) = match read_word(data, start, pos) {
            Ok(x) => x,
            Err(e) => { return Err(e); },
        };
        let (entries, next) = match read_entry_list(data, start, p) {
            Ok(x) => x,
            Err(e) => { return Err(e); },
        };
        let ghost before = storages@;
        let ghost list = entries@;
        storages.insert(slot, entries);
        assert(storage_views(storages@) =~= storage_views(before).insert(slot, list));
        pos = next;
        i += 1;
    }
    Ok((storages, pos))
}

fn read_stats(data: &[u8], start: usize, at: usize) -> (r: Result<
    (BankHashStats, usize),
    DeserializeError,
>)
    requires
        in_value(data@, start as int, at as int),
    ensures
        match take_stats(data@, start as int, at as int) {
            Ok((v, next)) => r == Ok::<(BankHashStats, usize), DeserializeError>(
                (v, next as usize),
            ) && in_value(data@, start as int, next),
            Err(e) => r == Err::<(BankHashStats, usize), DeserializeError>(e),
        },
{
    let (num_updated_accounts, p1) = match read_word(data, start, at) {
        Ok(x) => x,
        Err(e) => { return Err(e); },
    };
    let (num_removed_accounts, p2) = match read_word(data, start, p1) {
        Ok(x) => x,
        Err(e) => { return Err(e); },
    };
    let (num_lamports_stored, p3) = match read_word(data, start, p2) {
        Ok(x) => x,
        Err(e) => { return Err(e); },
    };
    let (total_data_len, p4) = match read_word(data, start, p3) {
        Ok(x) => x,
        Err(e) => { return Err(e); },
    };
    let (num_executable_accounts, next) = match read_word(data, start, p4) {
        Ok(x) => x,
        Err(e) => { return Err(e); },
    };
    Ok(
        (
            BankHashStats {
                num_updated_accounts,
                num_removed_accounts,
                num_lamports_stored,
                total_data_len,
                num_executable_accounts,
            },
            next,
        ),
    )
}

fn read_bank_hash_info(data: &[u8], start: usize, at: usize) -> (r: Result<
    (BankHashInfo, usize),
    DeserializeError,
>)
    requires
        in_value(data@, start as int, at as int),
    ensures
        match take_bank_hash_info(data@, start as int, at as int) {
            Ok((v, next)) => r matches Ok((info, end)) && info@ == v && end == next && in_value(
                data@,
                start as int,
                next,
            ),
            Err(e) => r == Err::<(BankHashInfo, usize), DeserializeError>(e),
        },
{
    let (hash, p1) = match read_hash(data, start, at) {
        Ok(x) => x,
        Err(e) => { return Err(e); },
    };
    let (snapshot_hash, p2) = match read_hash(data, start, p1) {
        Ok(x) => x,
        Err(e) => { return Err(e); },
    };
    let (stats, next) = match read_stats(data, start, p2) {
        Ok(x) => x,
        Err(e) => { return Err(e); },
    };
    Ok((BankHashInfo { hash, snapshot_hash, stats }, next))
}

fn read_root_list(data: &[u8], start: usize, at: usize) -> (r: Result<
    (Vec<u64>, usize),
    DeserializeError,
>)
    requires
        in_value(data@, start as int, at as int),
    ensures
        match take_root_list(data@, start as int, at as int) {
            Ok((v, next)) => r matches Ok((roots, end)) && roots@ == v && end == next && in_value(
                data@,
                start as int,
                next,
            ),
            Err(e) => r == Err::<(Vec<u64>, usize), DeserializeError>(e),
        },
{
    let (n, first) = match read_word(data, start, at) {
        Ok(x) => x,
        Err(e) => {
            return match e.kind {
                DeserializeErrorKind::UnexpectedEof => Ok((Vec::new(), data.len())),
                _ => Err(e),
            };
        },
    };
    let mut roots: Vec<u64> = Vec::new();
    let mut pos: usize = first;
    let mut i: u64 = 0;
    while i < n
        invariant
            i <= n,
            in_value(data@, start as int, pos as int),
            take_root_list(data@, start as int, at as int) == or_empty_at_eof(
                data@,
                take_roots(data@, start as int, pos as int, (n - i) as nat, roots@),
            ),
        decreases n - i,
    {
        match read_word(data, start, pos) {
            Err(e) => {
                return match e.kind {
                    DeserializeErrorKind::UnexpectedEof => Ok((Vec::new(), data.len())),
                    _ => Err(e),
                };
            },
            Ok((root, next)) => {
                roots.push(root);
                pos = next;
                i += 1;
            },
        }
    }
    Ok((roots, pos))
}

fn read_hashed_root_list(data: &[u8], start: usize, at: usize) -> (r: Result<
    (Vec<(u64, crate::pubkey::Hash)>, usize),
    DeserializeError,
>)
    requires
        in_value(data@, start as int, at as int),
    ensures
        match take_hashed_root_list(data@, start as int, at as int) {
            Ok((v, next)) => r matches Ok((roots, end)) && hashed_root_views(roots@) == v && end
                == next && in_value(data@, start as int, next),
            Err(e) => r == Err::<(Vec<(u64, crate::pubkey::Hash)>, usize), DeserializeError>(e),
        },
{
    let (n, first) = match read_word(data, start, at) {
        Ok(x) => x,
        Err(e) => {
            return match e.kind {
                DeserializeErrorKind::UnexpectedEof => {
                    let empty: Vec<(u64, crate::pubkey::Hash)> = Vec::new();
                    assert(hashed_root_views(empty@) =~= Seq::empty());
                    Ok((empty, data.len()))
                },
                _ => Err(e),
            };
        },
    };
    let mut roots: Vec<(u64, crate::pubkey::Hash)> = Vec::new();
    let mut pos: usize = first;
    let mut i: u64 = 0;
    assert(hashed_root_views(roots@) =~= Seq::empty());
    while i < n
        invariant
            i <= n,
            in_value(data@, start as int, pos as int),
            take_hashed_root_list(data@, start as int, at as int) == or_empty_at_eof(
                data@,
                take_hashed_roots(
                    data@,
                    start as int,
                    pos as int,
                    (n - i) as nat,
                    hashed_root_views(roots@),
                ),
            ),
        decreases n - i,
    {
        let step = match read_word(data, start, pos) {
            Err(e) => Err(e),
            Ok((root, p)) => match read_hash(data, start, p) {
                Err(e) => Err(e),
                Ok((hash, next)) => Ok((root, hash, next)),
            },
        };
        match step {
            Err(e) => {
                return match e.kind {
                    DeserializeErrorKind::UnexpectedEof => {
                        let empty: Vec<(u64, crate::pubkey::Hash)> = Vec::new();
                        assert(hashed_root_views(empty@) =~= Seq::empty());
                        Ok((empty, data.len()))
                    },
                    _ => Err(e),
                };
            },
            Ok((root, hash, next)) => {
                let ghost before = roots@;
                roots.push((root, hash));
                assert(hashed_root_views(roots@) =~= hashed_root_views(before).push(
                    (root, hash@),
                ));
                pos = next;
                i += 1;
            },
        }
    }
    Ok((roots, pos))
}

/// Reads the part of the manifest that follows the bank. `start` is the
/// offset at which the bank ends. Gives the fields and the offset behind
/// them.
pub fn parse_accounts_db_fields(data: &[u8], start: usize) -> (r: Result<
    (AccountsDbFields, usize),
    DeserializeError,
>)
    ensures
        match accounts_db_fields_at(data@, start as int) {
            Ok((v, next)) => r matches Ok((fields, end)) && fields@ == v && end == next,
            Err(e) => r == Err::<(AccountsDbFields, usize), DeserializeError>(e),
        },
{
    if start > data.len() {
        return Err(DeserializeError { offset: start, kind: DeserializeErrorKind::UnexpectedEof });
    }
    let (storages, p1) = match read_storage_map(data, start, start) {
        Ok(x) => x,
        Err(e) => { return Err(e); },
    };
    let (write_version, p2) = match read_word(data, start, p1) {
        Ok(x) => x,
        Err(e) => { return Err(e); },
    };
    let (slot, p3) = match read_word(data, start, p2) {
        Ok(x) => x,
        Err(e) => { return Err(e); },
    };
    let (bank_hash_info, p4) = match read_bank_hash_info(data, start, p3) {
        Ok(x) => x,
        Err(e) => { return Err(e); },
    };
    let (historical_roots, p5) = match read_root_list(data, start, p4) {
        Ok(x) => x,
        Err(e) => { return Err(e); },
    };
    let (historical_roots_with_hash, next) = match read_hashed_root_list(data, start, p5) {
        Ok(x) => x,
        Err(e) => { return Err(e); },
    };
    Ok(
        (
            AccountsDbFields {
                storages,
                write_version,
                slot,
                bank_hash_info,
                historical_roots,
                historical_roots_with_hash,
            },
            next,
        ),
    )
}

} // verus!
