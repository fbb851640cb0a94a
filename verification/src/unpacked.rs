//! Opening an unpacked snapshot: a directory with `snapshots/` and
//! `accounts/` in it.

use crate::names::{decimal_u64, parse_u64};
use crate::SnapshotError;
use vstd::prelude::*;

verus! {

/// The index of the first name from `from` on that is an unsigned 64-bit
/// decimal.
pub open spec fn first_slot_name(names: Seq<Vec<u8>>, from: int) -> Option<int>
    decreases names.len() - from,
{
    if from < 0 || from >= names.len() {
        None
    } else if decimal_u64(names[from]@) is Some {
        Some(from)
    } else {
        first_slot_name(names, from + 1)
    }
}

/// `first_slot_name` finds a slot name that no slot name precedes, and finds
/// none only where there is none.
pub proof fn lemma_first_slot_name(names: Seq<Vec<u8>>, from: int)
    requires
        0 <= from,
    ensures
        match first_slot_name(names, from) {
            Some(at) => {
                &&& from <= at < names.len()
                &&& decimal_u64(names[at]@) is Some
                &&& forall|i: int| from <= i < at ==> decimal_u64(names[i]@) is None
            },
            None => forall|i: int| from <= i < names.len() ==> decimal_u64(names[i]@) is None,
        },
    decreases names.len() - from,
{
    if from < names.len() && decimal_u64(names[from]@) is None {
        lemma_first_slot_name(names, from + 1);
    }
}

/// Where the manifest of an unpacked snapshot is: in the first entry of
/// `snapshots/` that is named by a slot number, under the same name. Without
/// the status cache the snapshot is not complete; without such an entry it
/// has no manifest.
pub open spec fn manifest_dir(has_status_cache: bool, names: Seq<Vec<u8>>) -> Result<
    int,
    SnapshotError,
> {
    if !has_status_cache {
        Err(SnapshotError::NoStatusCache)
    } else {
        match first_slot_name(names, 0) {
            Some(at) => Ok(at),
            None => Err(SnapshotError::NoSnapshotManifest),
        }
    }
}

/// Picks the manifest of an unpacked snapshot. `has_status_cache` says whether
/// `snapshots/status_cache` exists; `names` are the names of the entries of
/// `snapshots/` in the order in which the directory lists them.
pub fn locate_manifest(has_status_cache: bool, names: &[Vec<u8>]) -> (r: Result<
    usize,
    SnapshotError,
>)
    ensures
        match manifest_dir(has_status_cache, names@) {
            Ok(at) => r == Ok::<usize, SnapshotError>(at as usize),
            Err(e) => r == Err::<usize, SnapshotError>(e),
        },
{
    if !has_status_cache {
        return Err(SnapshotError::NoStatusCache);
    }
    let mut i: usize = 0;
    while i < names.len()
        invariant
            i <= names@.len(),
            has_status_cache,
            first_slot_name(names@, 0) == first_slot_name(names@, i as int),
        decreases names@.len() - i,
    {
        if parse_u64(names[i].as_slice()).is_some() {
            return Ok(i);
        }
        i += 1;
    }
    Err(SnapshotError::NoSnapshotManifest)
}

} // verus!
