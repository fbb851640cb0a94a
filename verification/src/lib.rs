//! Reads the accounts out of a snapshot of a Solana ledger.
//!
//! A snapshot is a manifest and a set of AppendVecs. The manifest says which
//! AppendVecs belong to the snapshot and how many bytes of each hold account
//! records; an AppendVec is a buffer of packed account records. This crate
//! holds what is decided and computed on the way from the bytes of a
//! snapshot to what a sink is given of each account: the rows of a relational
//! index, the line of a CSV dump, the file of a program archive, the update
//! for a plugin. Reading files and archives and writing to the sinks is left
//! to the caller.

use crate::append_vec::{record_at, record_offsets, AppendVec, StoredAccountMeta};
use crate::names::{decimal_u64, find_first, first_index_of, lemma_first_index_of, parse_u64};
use std::rc::Rc;
use vstd::prelude::*;
use vstd::slice::slice_subrange;
use vstd::string::StringExecFns;

pub mod append_vec;
pub mod bank;
pub mod archived;
pub mod bytes;
pub mod csv;
pub mod geyser;
pub mod mpl_metadata;
pub mod names;
pub mod parallel;
pub mod programs;
pub mod pubkey;
pub mod solana;
pub mod sources;
pub mod sqlite;
pub mod token;
pub mod unpacked;
pub mod wire;

verus! {

/// Why a snapshot could not be read.
#[derive(Debug)]
pub enum SnapshotError {
    /// The source could not be read, or ended too early. Holds the reason.
    IOError(String),
    /// The manifest is malformed. Holds the reason.
    BincodeError(String),
    NoStatusCache,
    NoSnapshotManifest,
    UnexpectedAppendVec,
}

impl SnapshotError {
    /// The one-line message shown to the user.
    pub fn to_string(&self) -> (text: String)
        ensures
            self matches SnapshotError::IOError(reason) ==> text@ == reason@,
            self matches SnapshotError::BincodeError(reason) ==> text@
                == "Failed to deserialize: "@ + reason@,
            self is NoStatusCache ==> text@ == "Missing status cache"@,
            self is NoSnapshotManifest ==> text@ == "No snapshot manifest file found"@,
            self is UnexpectedAppendVec ==> text@ == "Unexpected AppendVec"@,
    {
        match self {
            SnapshotError::IOError(reason) => reason.clone(),
            SnapshotError::BincodeError(reason) => String::from_str(
                "Failed to deserialize: ",
            ).concat(reason.as_str()),
            SnapshotError::NoStatusCache => String::from_str("Missing status cache"),
            SnapshotError::NoSnapshotManifest => String::from_str(
                "No snapshot manifest file found",
            ),
            SnapshotError::UnexpectedAppendVec => String::from_str("Unexpected AppendVec"),
        }
    }
}

/// The slot and id that the file name `<slot>.<id>` denotes: two unsigned
/// 64-bit decimals around the first dot of the name.
pub open spec fn append_vec_name(name: Seq<u8>) -> Option<(u64, u64)> {
    let dot = first_index_of(name, 0x2e);
    if dot >= name.len() {
        None
    } else {
        match (decimal_u64(name.take(dot)), decimal_u64(name.skip(dot + 1))) {
            (Some(slot), Some(id)) => Some((slot, id)),
            _ => None,
        }
    }
}

/// Reads the slot and id from the name of an AppendVec file.
pub fn parse_append_vec_name(name: &[u8]) -> (r: Option<(u64, u64)>)
    ensures
        r == append_vec_name(name@),
{
    let dot = find_first(name, 0x2e);
    proof {
        lemma_first_index_of(name@, 0x2e);
    }
    if dot >= name.len() {
        return None;
    }
    let slot = parse_u64(slice_subrange(name, 0, dot));
    let id = parse_u64(slice_subrange(name, dot + 1, name.len()));
    match (slot, id) {
        (Some(slot), Some(id)) => Some((slot, id)),
        _ => None,
    }
}

/// A record of an AppendVec, kept as the shared buffer and the record's offset.
#[derive(Debug)]
pub struct StoredAccountMetaHandle {
    append_vec: Rc<AppendVec>,
    offset: usize,
}

/// Calls `Rc::clone`. Taken on trust: the new pointer leads to the same
/// AppendVec.
#[verifier::external_body]
fn share(append_vec: &Rc<AppendVec>) -> (shared: Rc<AppendVec>)
    ensures
        shared == *append_vec,
{
    Rc::clone(append_vec)
}

impl StoredAccountMetaHandle {
    /// The bytes of the AppendVec that the handle points into.
    pub closed spec fn bytes(&self) -> Seq<u8> {
        self.append_vec@
    }

    /// The offset of the record in the AppendVec.
    pub closed spec fn offset(&self) -> int {
        self.offset as int
    }

    pub fn new(append_vec: Rc<AppendVec>, offset: usize) -> (handle: StoredAccountMetaHandle)
        ensures
            handle.bytes() == append_vec@,
            handle.offset() == offset,
    {
        Self { append_vec, offset }
    }

    /// The record that the handle stands for, or `None` if no full record
    /// lies at its offset.
    pub fn access(&self) -> (r: Option<StoredAccountMeta<'_>>)
        ensures
            r is Some <==> record_at(self.bytes(), self.offset()) is Some,
            r matches Some(account) ==> (record_at(self.bytes(), self.offset()) matches Some(found)
                && found.0 == account@),
    {
        match self.append_vec.get_account(self.offset) {
            Some((account, _)) => Some(account),
            None => None,
        }
    }
}

/// The records of an AppendVec in the order in which they lie in it: one
/// handle for each offset met when reading from the start until no full record
/// fits.
pub fn append_vec_iter(append_vec: Rc<AppendVec>) -> (handles: Vec<StoredAccountMetaHandle>)
    ensures
        handles@.len() == record_offsets(append_vec@, 0).len(),
        forall|i: int|
            0 <= i < handles@.len() ==> {
                &&& (#[trigger] handles@[i]).bytes() == append_vec@
                &&& handles@[i].offset() == record_offsets(append_vec@, 0)[i]
                &&& record_at(append_vec@, handles@[i].offset()) is Some
            },
{
    let mut handles = Vec::<StoredAccountMetaHandle>::new();
    let mut offset: usize = 0;
    let ghost bytes = append_vec@;
    loop
        invariant
            bytes == append_vec@,
            record_offsets(bytes, 0) =~= Seq::new(
                handles@.len(),
                |i: int| handles@[i].offset(),
            ) + record_offsets(bytes, offset as int),
            forall|i: int|
                0 <= i < handles@.len() ==> {
                    &&& (#[trigger] handles@[i]).bytes() == bytes
                    &&& record_at(bytes, handles@[i].offset()) is Some
                },
        ensures
            record_offsets(bytes, 0) =~= Seq::new(handles@.len(), |i: int| handles@[i].offset()),
            forall|i: int|
                0 <= i < handles@.len() ==> {
                    &&& (#[trigger] handles@[i]).bytes() == bytes
                    &&& record_at(bytes, handles@[i].offset()) is Some
                },
        decreases bytes.len() + 8 - offset,
    {
        match append_vec.get_account(offset) {
            None => {
                break ;
            },
            Some((_, next_offset)) => {
                proof {
                    crate::append_vec::lemma_record_advances(bytes, offset as int);
                }
                let ghost before = handles@;
                handles.push(StoredAccountMetaHandle::new(share(&append_vec), offset));
                assert forall|i: int| 0 <= i < handles@.len() implies {
                    &&& (#[trigger] handles@[i]).bytes() == bytes
                    &&& record_at(bytes, handles@[i].offset()) is Some
                } by {
                    if i < before.len() {
                        assert(handles@[i] == before[i]);
                    }
                }
                assert(Seq::new(handles@.len(), |i: int| handles@[i].offset()) =~= Seq::new(
                    before.len(),
                    |i: int| before[i].offset(),
                ) + seq![offset as int]);
                offset = next_offset;
            },
        }
    }
    assert forall|i: int| 0 <= i < handles@.len() implies handles@[i].offset() == record_offsets(
        bytes,
        0,
    )[i] by {
        assert(Seq::new(handles@.len(), |i: int| handles@[i].offset())[i] == handles@[i].offset());
    }
    handles
}

} // verus!
