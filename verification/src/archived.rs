//! Reading a snapshot archive: which entry is the manifest, which entries are
//! AppendVecs, and in what order they may come.
//!
//! The archive is read front to back, once. The manifest has to come before
//! every AppendVec, because an AppendVec can only be cut to its length once
//! the manifest is known.

use crate::bytes::bytes_eq;
use crate::names::{
    after_last, decimal_u64, find_after_last, find_first, first_index_of, lemma_after_last,
    lemma_first_index_of, parse_u64,
};
use crate::solana::{AccountsDbFields, AppendVecPlan};
use crate::{append_vec_name, parse_append_vec_name, SnapshotError};
use vstd::prelude::*;
use vstd::slice::slice_subrange;

verus! {

/// `snapshots/`
pub const SNAPSHOTS_PREFIX: [u8; 10] = [115, 110, 97, 112, 115, 104, 111, 116, 115, 47];

/// `accounts/`
pub const ACCOUNTS_PREFIX: [u8; 9] = [97, 99, 99, 111, 117, 110, 116, 115, 47];

/// What an archive entry is, going by its path.
#[derive(Clone, Copy, Debug, PartialEq, Eq, Structural)]
pub enum EntryKind {
    /// `snapshots/<N>/<N>`
    Manifest,
    /// `accounts/<slot>.<id>`
    AppendVec { slot: u64, id: u64 },
    Other,
}

pub open spec fn has_prefix(path: Seq<u8>, prefix: Seq<u8>) -> bool {
    path.len() >= prefix.len() && path.take(prefix.len() as int) == prefix
}

/// Whether `path` is `snapshots/<N>/<N>` with the same unsigned 64-bit decimal
/// written twice, letter for letter.
pub open spec fn is_manifest_path(path: Seq<u8>) -> bool {
    let rest = path.skip(SNAPSHOTS_PREFIX@.len() as int);
    let slash = first_index_of(rest, 0x2f);
    &&& has_prefix(path, SNAPSHOTS_PREFIX@)
    &&& slash < rest.len()
    &&& decimal_u64(rest.take(slash)) is Some
    &&& rest.skip(slash + 1) == rest.take(slash)
}

/// The kind of the entry at `path`.
pub open spec fn entry_kind(path: Seq<u8>) -> EntryKind {
    if is_manifest_path(path) {
        EntryKind::Manifest
    } else if has_prefix(path, ACCOUNTS_PREFIX@) {
        match append_vec_name(path.skip(ACCOUNTS_PREFIX@.len() as int)) {
            Some((slot, id)) => EntryKind::AppendVec { slot, id },
            None => EntryKind::Other,
        }
    } else {
        EntryKind::Other
    }
}

/// What follows the last `/` of a path.
pub open spec fn file_name(path: Seq<u8>) -> Seq<u8> {
    path.skip(after_last(path, 0x2f))
}

fn starts_with(path: &[u8], prefix: &[u8]) -> (b: bool)
    ensures
        b == has_prefix(path@, prefix@),
{
    path.len() >= prefix.len() && bytes_eq(slice_subrange(path, 0, prefix.len()), prefix)
}

/// Classifies an archive entry by its path.
pub fn classify_entry(path: &[u8]) -> (kind: EntryKind)
    ensures
        kind == entry_kind(path@),
{
    if starts_with(path, SNAPSHOTS_PREFIX.as_slice()) {
        let rest = slice_subrange(path, SNAPSHOTS_PREFIX.len(), path.len());
        let slash = find_first(rest, 0x2f);
        proof {
            lemma_first_index_of(rest@, 0x2f);
        }
        if slash < rest.len() {
            let first = slice_subrange(rest, 0, slash);
            let second = slice_subrange(rest, slash + 1, rest.len());
            if parse_u64(first).is_some() && bytes_eq(second, first) {
                return EntryKind::Manifest;
            }
        }
        assert(!is_manifest_path(path@));
        assert(!has_prefix(path@, ACCOUNTS_PREFIX@)) by {
            if has_prefix(path@, ACCOUNTS_PREFIX@) {
                assert(path@.take(9)[0] == ACCOUNTS_PREFIX@[0]);
                assert(path@.take(10)[0] == SNAPSHOTS_PREFIX@[0]);
            }
        }
        EntryKind::Other
    } else if starts_with(path, ACCOUNTS_PREFIX.as_slice()) {
        match parse_append_vec_name(slice_subrange(path, ACCOUNTS_PREFIX.len(), path.len())) {
            Some((slot, id)) => EntryKind::AppendVec { slot, id },
            None => EntryKind::Other,
        }
    } else {
        EntryKind::Other
    }
}

/// The last component of a path.
pub fn entry_file_name(path: &[u8]) -> (name: &[u8])
    ensures
        name@ == file_name(path@),
{
    let at = find_after_last(path, 0x2f);
    proof {
        lemma_after_last(path@, 0x2f);
    }
    slice_subrange(path, at, path.len())
}

/// Where the search for the manifest ends among entries of the given kinds,
/// looking from index `from` on: at the first manifest, if no AppendVec comes
/// before it.
pub open spec fn manifest_search(kinds: Seq<EntryKind>, from: int) -> Result<int, SnapshotError>
    decreases kinds.len() - from,
{
    if from < 0 || from >= kinds.len() {
        Err(SnapshotError::NoSnapshotManifest)
    } else {
        match kinds[from] {
            EntryKind::Manifest => Ok(from),
            EntryKind::AppendVec { .. } => Err(SnapshotError::UnexpectedAppendVec),
            EntryKind::Other => manifest_search(kinds, from + 1),
        }
    }
}

/// An archive in which an AppendVec comes before any manifest is refused
/// with `UnexpectedAppendVec`.
pub proof fn lemma_append_vec_before_manifest(kinds: Seq<EntryKind>, at: int)
    requires
        0 <= at < kinds.len(),
        kinds[at] is AppendVec,
        forall|i: int| 0 <= i < at ==> !(kinds[i] is Manifest),
    ensures
        manifest_search(kinds, 0) == Err::<int, SnapshotError>(SnapshotError::UnexpectedAppendVec),
{
    lemma_search_from(kinds, at, 0);
}

proof fn lemma_search_from(kinds: Seq<EntryKind>, at: int, from: int)
    requires
        0 <= from <= at < kinds.len(),
        kinds[at] is AppendVec,
        forall|i: int| 0 <= i < at ==> !(kinds[i] is Manifest),
    ensures
        manifest_search(kinds, from) == Err::<int, SnapshotError>(
            SnapshotError::UnexpectedAppendVec,
        ),
    decreases at - from,
{
    if from < at && kinds[from] is Other {
        lemma_search_from(kinds, at, from + 1);
    }
}

/// The search finds the first manifest exactly when only other entries come
/// before it, and ends without one exactly when the archive holds neither a
/// manifest nor an AppendVec.
pub proof fn lemma_manifest_search(kinds: Seq<EntryKind>, from: int)
    requires
        0 <= from,
    ensures
        match manifest_search(kinds, from) {
            Ok(at) => {
                &&& from <= at < kinds.len()
                &&& kinds[at] is Manifest
                &&& forall|i: int| from <= i < at ==> kinds[i] is Other
            },
            Err(e) => if e is NoSnapshotManifest {
                forall|i: int| from <= i < kinds.len() ==> kinds[i] is Other
            } else {
                &&& e is UnexpectedAppendVec
                &&& exists|at: int|
                    {
                        &&& from <= at < kinds.len()
                        &&& #[trigger] kinds[at] is AppendVec
                        &&& forall|i: int| from <= i < at ==> kinds[i] is Other
                    }
            },
        },
    decreases kinds.len() - from,
{
    if from < kinds.len() {
        match kinds[from] {
            EntryKind::Other => {
                lemma_manifest_search(kinds, from + 1);
                match manifest_search(kinds, from + 1) {
                    Ok(at) => {},
                    Err(e) => {
                        if e is UnexpectedAppendVec {
                            let at = choose|at: int|
                                {
                                    &&& from + 1 <= at < kinds.len()
                                    &&& #[trigger] kinds[at] is AppendVec
                                    &&& forall|i: int| from + 1 <= i < at ==> kinds[i] is Other
                                };
                            assert(kinds[at] is AppendVec);
                        }
                    },
                }
            },
            EntryKind::AppendVec { .. } => {
                assert(kinds[from] is AppendVec);
            },
            EntryKind::Manifest => {},
        }
    }
}

/// The kinds of the entries at the given paths.
pub open spec fn kinds_of(paths: Seq<Vec<u8>>) -> Seq<EntryKind> {
    Seq::new(paths.len(), |i: int| entry_kind(paths[i]@))
}

/// Looks for the manifest among the entries of an archive, given their paths
/// in archive order.
pub fn find_manifest(paths: &[Vec<u8>]) -> (r: Result<usize, SnapshotError>)
    ensures
        match manifest_search(kinds_of(paths@), 0) {
            Ok(at) => r == Ok::<usize, SnapshotError>(at as usize),
            Err(e) => r == Err::<usize, SnapshotError>(e),
        },
{
    let mut i: usize = 0;
    while i < paths.len()
        invariant
            i <= paths@.len(),
            manifest_search(kinds_of(paths@), 0) == manifest_search(kinds_of(paths@), i as int),
        decreases paths@.len() - i,
    {
        match classify_entry(paths[i].as_slice()) {
            EntryKind::Manifest => {
                return Ok(i);
            },
            EntryKind::AppendVec { .. } => {
                return Err(SnapshotError::UnexpectedAppendVec);
            },
            EntryKind::Other => {},
        }
        i += 1;
    }
    Err(SnapshotError::NoSnapshotManifest)
}

/// `http://`
pub const HTTP_PREFIX: [u8; 7] = [104, 116, 116, 112, 58, 47, 47];

/// `https://`
pub const HTTPS_PREFIX: [u8; 8] = [104, 116, 116, 112, 115, 58, 47, 47];

/// Whether a snapshot source is a link to download the archive from, going
/// by its prefix. Any other source is a path: of a directory for an unpacked
/// snapshot, of a file for an archive.
pub fn is_http_source(source: &[u8]) -> (b: bool)
    ensures
        b == (has_prefix(source@, HTTP_PREFIX@) || has_prefix(source@, HTTPS_PREFIX@)),
{
    starts_with(source, HTTP_PREFIX.as_slice()) || starts_with(source, HTTPS_PREFIX.as_slice())
}

/// How far the reading of an archive has come.
#[derive(Clone, Copy, Debug, PartialEq, Eq, Structural)]
pub enum ArchiveState {
    /// Looking for the manifest.
    Opening,
    /// The manifest entry was met and is being read.
    ManifestFound,
    /// The manifest is known; the entries behind it are AppendVecs.
    Iterating,
    /// Nothing more will be read.
    Exhausted,
}

/// What to do with the archive entry that was just met.
#[derive(Debug)]
pub enum ArchiveAction {
    /// Pass over the entry.
    Skip,
    /// Read the manifest from the entry, then call `manifest_loaded`.
    ReadManifest,
    /// Read `current_len` bytes of the entry as the AppendVec `(slot, id)`.
    ReadAppendVec { slot: u64, id: u64, current_len: u64 },
    /// Give up the entry with this error.
    Fail(SnapshotError),
}

/// The decisions of a reader that walks a snapshot archive once.
#[derive(Debug)]
pub struct ArchiveSnapshotExtractor {
    state: ArchiveState,
    accounts_db_fields: Option<AccountsDbFields>,
}

impl ArchiveSnapshotExtractor {
    pub closed spec fn state(&self) -> ArchiveState {
        self.state
    }

    /// The manifest, once it is known.
    pub closed spec fn manifest(&self) -> Option<AccountsDbFields> {
        self.accounts_db_fields
    }

    #[verifier::type_invariant]
    spec fn manifest_known_when_iterating(&self) -> bool {
        self.state is Iterating ==> self.accounts_db_fields is Some
    }

    pub fn new() -> (extractor: ArchiveSnapshotExtractor)
        ensures
            extractor.state() is Opening,
            extractor.manifest() is None,
    {
        ArchiveSnapshotExtractor { state: ArchiveState::Opening, accounts_db_fields: None }
    }

    pub fn current_state(&self) -> (state: ArchiveState)
        ensures
            state == self.state(),
    {
        self.state
    }

    /// The next state and the action for an entry met in state `state`, with
    /// manifest `manifest`.
    pub open spec fn step(
        state: ArchiveState,
        manifest: Option<AccountsDbFields>,
        path: Seq<u8>,
    ) -> (ArchiveState, ArchiveAction) {
        match state {
            ArchiveState::Opening => match entry_kind(path) {
                EntryKind::Manifest => (ArchiveState::ManifestFound, ArchiveAction::ReadManifest),
                EntryKind::AppendVec { .. } => (
                    ArchiveState::Exhausted,
                    ArchiveAction::Fail(SnapshotError::UnexpectedAppendVec),
                ),
                EntryKind::Other => (ArchiveState::Opening, ArchiveAction::Skip),
            },
            ArchiveState::Iterating => match manifest {
                Some(fields) => match fields.plan_of(file_name(path)) {
                    AppendVecPlan::NotAnAppendVec => (ArchiveState::Iterating, ArchiveAction::Skip),
                    AppendVecPlan::Unexpected { .. } => (
                        ArchiveState::Iterating,
                        ArchiveAction::Fail(SnapshotError::UnexpectedAppendVec),
                    ),
                    AppendVecPlan::Load { slot, id, current_len } => (
                        ArchiveState::Iterating,
                        ArchiveAction::ReadAppendVec { slot, id, current_len },
                    ),
                },
                None => (ArchiveState::Iterating, ArchiveAction::Skip),
            },
            ArchiveState::ManifestFound => (ArchiveState::ManifestFound, ArchiveAction::Skip),
            ArchiveState::Exhausted => (ArchiveState::Exhausted, ArchiveAction::Skip),
        }
    }

    /// Behind the manifest an archive entry is treated as the file of that
    /// name in the accounts directory of an unpacked snapshot is: passed over
    /// if the name is not that of an AppendVec, refused if the manifest does
    /// not list it, and read to the length that the manifest declares.
    pub proof fn lemma_entry_is_treated_as_file(fields: AccountsDbFields, path: Seq<u8>)
        ensures
            Self::step(ArchiveState::Iterating, Some(fields), path).0 is Iterating,
            match fields.plan_of(file_name(path)) {
                AppendVecPlan::NotAnAppendVec => Self::step(
                    ArchiveState::Iterating,
                    Some(fields),
                    path,
                ).1 is Skip,
                AppendVecPlan::Unexpected { .. } => Self::step(
                    ArchiveState::Iterating,
                    Some(fields),
                    path,
                ).1 == ArchiveAction::Fail(SnapshotError::UnexpectedAppendVec),
                AppendVecPlan::Load { slot, id, current_len } => Self::step(
                    ArchiveState::Iterating,
                    Some(fields),
                    path,
                ).1 == (ArchiveAction::ReadAppendVec { slot, id, current_len }),
            },
    {
    }

    /// Decides what to do with the next entry of the archive.
    pub fn on_entry(&mut self, path: &[u8]) -> (action: ArchiveAction)
        ensures
            (final(self).state(), action) == Self::step(
                old(self).state(),
                old(self).manifest(),
                path@,
            ),
            final(self).manifest() == old(self).manifest(),
    {
        proof {
            use_type_invariant(&*self);
        }
        match self.state {
            ArchiveState::Opening => match classify_entry(path) {
                EntryKind::Manifest => {
                    self.state = ArchiveState::ManifestFound;
                    ArchiveAction::ReadManifest
                },
                EntryKind::AppendVec { .. } => {
                    self.state = ArchiveState::Exhausted;
                    ArchiveAction::Fail(SnapshotError::UnexpectedAppendVec)
                },
                EntryKind::Other => ArchiveAction::Skip,
            },
            ArchiveState::Iterating => match &self.accounts_db_fields {
                Some(fields) => match fields.plan_append_vec(entry_file_name(path)) {
                    AppendVecPlan::NotAnAppendVec => ArchiveAction::Skip,
                    AppendVecPlan::Unexpected { .. } => ArchiveAction::Fail(
                        SnapshotError::UnexpectedAppendVec,
                    ),
                    AppendVecPlan::Load { slot, id, current_len } => ArchiveAction::ReadAppendVec {
                        slot,
                        id,
                        current_len,
                    },
                },
                None => ArchiveAction::Skip,
            },
            ArchiveState::ManifestFound => ArchiveAction::Skip,
            ArchiveState::Exhausted => ArchiveAction::Skip,
        }
    }

    /// Takes the manifest that was read from the entry for which `on_entry`
    /// answered `ReadManifest`. From then on entries are AppendVecs. In any
    /// other state no manifest is awaited: the call changes nothing and
    /// answers `false`.
    pub fn manifest_loaded(&mut self, fields: AccountsDbFields) -> (taken: bool)
        ensures
            taken == (old(self).state() is ManifestFound),
            taken ==> final(self).state() is Iterating && final(self).manifest() == Some(fields),
            !taken ==> final(self).state() == old(self).state() && final(self).manifest() == old(
                self,
            ).manifest(),
    {
        proof {
            use_type_invariant(&*self);
        }
        match self.state {
            ArchiveState::ManifestFound => {
                self.accounts_db_fields = Some(fields);
                self.state = ArchiveState::Iterating;
                true
            },
            _ => false,
        }
    }

    /// Ends the reading: the archive has no more entries, or the reader gave
    /// up. An archive that ends before a manifest was met has none.
    pub fn finish(&mut self) -> (r: Result<(), SnapshotError>)
        ensures
            final(self).state() is Exhausted,
            final(self).manifest() == old(self).manifest(),
            old(self).state() is Opening ==> r == Err::<(), SnapshotError>(
                SnapshotError::NoSnapshotManifest,
            ),
            !(old(self).state() is Opening) ==> r is Ok,
    {
        let was = self.state;
        self.state = ArchiveState::Exhausted;
        match was {
            ArchiveState::Opening => Err(SnapshotError::NoSnapshotManifest),
            _ => Ok(()),
        }
    }
}

} // verus!
