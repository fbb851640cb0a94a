//! What a snapshot yields, whichever way it is read.
//!
//! An archive and a directory hold the same AppendVecs under the same names;
//! the archive hands them out in the order of its entries, the directory in
//! the order in which it lists its files. This module states what a run over
//! either yields, and proves that the order makes no difference.

use crate::append_vec::{
    decode_record, lemma_record_advances, record_at, record_layout, record_offsets, AccountRecord,
    AppendVec,
};
use crate::archived::{file_name, ArchiveAction, ArchiveSnapshotExtractor, ArchiveState};
use crate::solana::{AccountsDbFields, AppendVecPlan};
use crate::{append_vec_name, SnapshotError};
use vstd::multiset::Multiset;
use vstd::prelude::*;
use vstd::seq_lib::{to_multiset_build, to_multiset_remove};

verus! {

/// What a sink is told of an account.
pub struct AccountFacts {
    pub pubkey: Seq<u8>,
    pub owner: Seq<u8>,
    pub lamports: u64,
    pub data_len: u64,
    pub data: Seq<u8>,
}

pub open spec fn facts_of(record: AccountRecord) -> AccountFacts {
    AccountFacts {
        pubkey: record.pubkey,
        owner: record.owner,
        lamports: record.lamports,
        data_len: record.data_len,
        data: record.data,
    }
}

/// The accounts of the records read from `from`, in their order.
pub open spec fn accounts_in(bytes: Seq<u8>, from: int) -> Seq<AccountFacts>
    decreases bytes.len() + 8 - from,
{
    match record_layout(bytes, from) {
        Some(l) => seq![facts_of(decode_record(bytes, l))] + accounts_in(bytes, l.next),
        None => Seq::empty(),
    }
}

/// The accounts read from `from` are those of the records at the offsets
/// read from `from`, one for one.
pub proof fn lemma_accounts_in(bytes: Seq<u8>, from: int)
    requires
        0 <= from,
    ensures
        accounts_in(bytes, from).len() == record_offsets(bytes, from).len(),
        forall|i: int|
            0 <= i < record_offsets(bytes, from).len() ==> (record_at(
                bytes,
                #[trigger] record_offsets(bytes, from)[i],
            ) matches Some(found) && accounts_in(bytes, from)[i] == facts_of(found.0)),
    decreases bytes.len() + 8 - from,
{
    if record_layout(bytes, from) is Some {
        let next = record_layout(bytes, from)->0.next;
        lemma_record_advances(bytes, from);
        lemma_accounts_in(bytes, next);
        let offsets = record_offsets(bytes, from);
        let rest = record_offsets(bytes, next);
        assert forall|i: int| 0 <= i < offsets.len() implies (record_at(
            bytes,
            #[trigger] offsets[i],
        ) matches Some(found) && accounts_in(bytes, from)[i] == facts_of(found.0)) by {
            if i > 0 {
                assert(offsets[i] == rest[i - 1]);
                assert(accounts_in(bytes, from)[i] == accounts_in(bytes, next)[i - 1]);
            }
        }
    }
}

/// What comes of one file of the accounts directory, or of one archive entry
/// behind the manifest.
pub enum Reading {
    /// The name is not that of an AppendVec: nothing is yielded.
    Skipped,
    /// The manifest does not list the AppendVec: `UnexpectedAppendVec`.
    Unexpected,
    /// The bytes end before the length that the manifest declares: `IOError`.
    TooShort,
    /// An AppendVec with these accounts.
    Accounts(Seq<AccountFacts>),
}

/// What comes of the file or entry named `name` that holds `bytes`.
pub open spec fn reading_of(fields: AccountsDbFields, name: Seq<u8>, bytes: Seq<u8>) -> Reading {
    match fields.plan_of(name) {
        AppendVecPlan::NotAnAppendVec => Reading::Skipped,
        AppendVecPlan::Unexpected { .. } => Reading::Unexpected,
        AppendVecPlan::Load { current_len, .. } => if current_len <= bytes.len() && current_len + 7
            <= usize::MAX {
            Reading::Accounts(accounts_in(bytes.take(current_len as int), 0))
        } else {
            Reading::TooShort
        },
    }
}

/// Reads one file of the accounts directory, or one archive entry behind the
/// manifest, from its name and its bytes. Nothing comes of a source whose
/// name is not that of an AppendVec. An AppendVec that the manifest does not
/// list is refused, and so is one whose bytes end before the length that the
/// manifest declares. Any other is cut to that length.
pub fn read_source(fields: &AccountsDbFields, name: &[u8], bytes: Vec<u8>) -> (r: Option<
    Result<AppendVec, SnapshotError>,
>)
    ensures
        match reading_of(*fields, name@, bytes@) {
            Reading::Skipped => r is None,
            Reading::Unexpected => r matches Some(Err(e)) && e is UnexpectedAppendVec,
            Reading::TooShort => r matches Some(Err(e)) && e is IOError,
            Reading::Accounts(accounts) => r matches Some(Ok(v)) && accounts_in(v@, 0)
                == accounts,
        },
{
    match fields.plan_append_vec(name) {
        AppendVecPlan::NotAnAppendVec => None,
        AppendVecPlan::Unexpected { .. } => Some(Err(SnapshotError::UnexpectedAppendVec)),
        AppendVecPlan::Load { slot, id, .. } => Some(fields.open_append_vec(slot, id, bytes)),
    }
}

/// The accounts that a file or entry adds to what a run yields.
pub open spec fn source_accounts(fields: AccountsDbFields, source: (Seq<u8>, Seq<u8>)) -> Multiset<
    AccountFacts,
> {
    match reading_of(fields, source.0, source.1) {
        Reading::Accounts(accounts) => accounts.to_multiset(),
        _ => Multiset::empty(),
    }
}

/// The accounts that a run over `sources` yields, each as often as it is
/// yielded. A source is a name with the bytes under that name.
pub open spec fn accounts_of(fields: AccountsDbFields, sources: Seq<(Seq<u8>, Seq<u8>)>) -> Multiset<
    AccountFacts,
>
    decreases sources.len(),
{
    if sources.len() == 0 {
        Multiset::empty()
    } else {
        accounts_of(fields, sources.drop_last()).add(source_accounts(fields, sources.last()))
    }
}

/// Whether a run over `sources` meets no error.
pub open spec fn all_read(fields: AccountsDbFields, sources: Seq<(Seq<u8>, Seq<u8>)>) -> bool {
    forall|i: int|
        0 <= i < sources.len() ==> {
            let reading = reading_of(fields, (#[trigger] sources[i]).0, sources[i].1);
            reading is Skipped || reading is Accounts
        }
}

/// The sources whose names are those of AppendVecs, in their order.
pub open spec fn append_vecs_among(sources: Seq<(Seq<u8>, Seq<u8>)>) -> Seq<(Seq<u8>, Seq<u8>)>
    decreases sources.len(),
{
    if sources.len() == 0 {
        Seq::empty()
    } else if append_vec_name(sources.last().0) is Some {
        append_vecs_among(sources.drop_last()).push(sources.last())
    } else {
        append_vecs_among(sources.drop_last())
    }
}

/// The entries of an archive as sources: each under the last component of
/// its path, which is the name that its file has in a directory.
pub open spec fn named(entries: Seq<(Seq<u8>, Seq<u8>)>) -> Seq<(Seq<u8>, Seq<u8>)> {
    Seq::new(entries.len(), |i: int| (file_name(entries[i].0), entries[i].1))
}

proof fn lemma_accounts_without(fields: AccountsDbFields, s: Seq<(Seq<u8>, Seq<u8>)>, j: int)
    requires
        0 <= j < s.len(),
    ensures
        accounts_of(fields, s) == accounts_of(fields, s.remove(j)).add(
            source_accounts(fields, s[j]),
        ),
    decreases s.len(),
{
    if j == s.len() - 1 {
        assert(s.remove(j) =~= s.drop_last());
    } else {
        let front = s.drop_last();
        lemma_accounts_without(fields, front, j);
        assert(s.remove(j).drop_last() =~= front.remove(j));
        assert(s.remove(j).last() == s.last());
        assert(front[j] == s[j]);
        assert(accounts_of(fields, s.remove(j)) == accounts_of(fields, front.remove(j)).add(
            source_accounts(fields, s.last()),
        ));
        assert(accounts_of(fields, s) =~= accounts_of(fields, s.remove(j)).add(
            source_accounts(fields, s[j]),
        ));
    }
}

/// The accounts of a run do not depend on the order of its sources.
pub proof fn lemma_accounts_in_any_order(
    fields: AccountsDbFields,
    a: Seq<(Seq<u8>, Seq<u8>)>,
    b: Seq<(Seq<u8>, Seq<u8>)>,
)
    requires
        a.to_multiset() == b.to_multiset(),
    ensures
        accounts_of(fields, a) == accounts_of(fields, b),
    decreases a.len(),
{
    a.to_multiset_ensures();
    b.to_multiset_ensures();
    if a.len() != 0 {
        let x = a.last();
        assert(a.contains(x));
        assert(a.to_multiset().count(x) > 0);
        assert(b.to_multiset().count(x) > 0);
        assert(b.contains(x));
        let j = choose|j: int| 0 <= j < b.len() && b[j] == x;
        to_multiset_remove(b, j);
        to_multiset_remove(a, a.len() - 1);
        assert(a.remove(a.len() - 1) =~= a.drop_last());
        lemma_accounts_in_any_order(fields, a.drop_last(), b.remove(j));
        lemma_accounts_without(fields, b, j);
    } else {
        assert(b.len() == 0);
    }
}

/// Sources whose names are not those of AppendVecs add nothing to a run.
pub proof fn lemma_only_append_vecs_count(fields: AccountsDbFields, s: Seq<(Seq<u8>, Seq<u8>)>)
    ensures
        accounts_of(fields, s) == accounts_of(fields, append_vecs_among(s)),
        all_read(fields, s) == all_read(fields, append_vecs_among(s)),
        forall|x: (Seq<u8>, Seq<u8>)|
            append_vecs_among(s).contains(x) <==> s.contains(x) && append_vec_name(x.0) is Some,
    decreases s.len(),
{
    if s.len() != 0 {
        let front = s.drop_last();
        let last = s.last();
        lemma_only_append_vecs_count(fields, front);
        let kept = append_vecs_among(s);
        let kept_front = append_vecs_among(front);
        if append_vec_name(last.0) is Some {
            assert(kept.drop_last() =~= kept_front);
            assert(kept.last() == last);
        }
        assert forall|x: (Seq<u8>, Seq<u8>)|
            kept.contains(x) <==> s.contains(x) && append_vec_name(x.0) is Some by {
            if kept.contains(x) {
                let i = choose|i: int| 0 <= i < kept.len() && kept[i] == x;
                if append_vec_name(last.0) is Some && i == kept.len() - 1 {
                    assert(s[s.len() - 1] == x);
                } else {
                    assert(kept_front[i] == x);
                    assert(append_vecs_among(front).contains(x));
                    assert(front.contains(x));
                    let k = choose|k: int| 0 <= k < front.len() && front[k] == x;
                    assert(s[k] == x);
                }
            }
            if s.contains(x) && append_vec_name(x.0) is Some {
                let k = choose|k: int| 0 <= k < s.len() && s[k] == x;
                if k == s.len() - 1 {
                    assert(kept[kept.len() - 1] == x);
                } else {
                    assert(front[k] == x);
                    assert(front.contains(x));
                    assert(append_vecs_among(front).contains(x));
                    let i = choose|i: int| 0 <= i < kept_front.len() && kept_front[i] == x;
                    assert(kept[i] == x);
                }
            }
        }
        lemma_all_read_by_members(fields, s);
        lemma_all_read_by_members(fields, kept);
    } else {
        assert(append_vecs_among(s) =~= s);
    }
}

/// A run meets no error exactly if none of its sources gives one.
proof fn lemma_all_read_by_members(fields: AccountsDbFields, s: Seq<(Seq<u8>, Seq<u8>)>)
    ensures
        all_read(fields, s) <==> forall|x: (Seq<u8>, Seq<u8>)|
            s.contains(x) ==> {
                let reading = #[trigger] reading_of(fields, x.0, x.1);
                reading is Skipped || reading is Accounts
            },
{
    if all_read(fields, s) {
        assert forall|x: (Seq<u8>, Seq<u8>)| s.contains(x) implies {
            let reading = #[trigger] reading_of(fields, x.0, x.1);
            reading is Skipped || reading is Accounts
        } by {
            let i = choose|i: int| 0 <= i < s.len() && s[i] == x;
            assert(s[i] == x);
        }
    }
    if (forall|x: (Seq<u8>, Seq<u8>)|
        s.contains(x) ==> {
            let reading = #[trigger] reading_of(fields, x.0, x.1);
            reading is Skipped || reading is Accounts
        }) {
        assert forall|i: int| 0 <= i < s.len() implies {
            let reading = reading_of(fields, (#[trigger] s[i]).0, s[i].1);
            reading is Skipped || reading is Accounts
        } by {
            assert(s.contains(s[i]));
        }
    }
}

/// An archive and the directory that it was unpacked to yield the same
/// accounts, each as often. `entries` are the entries of the archive behind
/// its manifest, each a path with the bytes of the entry; `files` are the
/// files of the accounts directory, each a name with the bytes of the file.
/// The directory holds what the archive holds if the AppendVecs among the
/// one are those among the other, in whatever order. Then a run over one
/// meets an error exactly if a run over the other does, and both yield the
/// same accounts.
pub proof fn lemma_archive_and_directory_agree(
    fields: AccountsDbFields,
    entries: Seq<(Seq<u8>, Seq<u8>)>,
    files: Seq<(Seq<u8>, Seq<u8>)>,
)
    requires
        append_vecs_among(named(entries)).to_multiset() == append_vecs_among(files).to_multiset(),
    ensures
        accounts_of(fields, named(entries)) == accounts_of(fields, files),
        all_read(fields, named(entries)) == all_read(fields, files),
{
    let a = append_vecs_among(named(entries));
    let b = append_vecs_among(files);
    lemma_only_append_vecs_count(fields, named(entries));
    lemma_only_append_vecs_count(fields, files);
    lemma_accounts_in_any_order(fields, a, b);
    lemma_all_read_by_members(fields, a);
    lemma_all_read_by_members(fields, b);
    a.to_multiset_ensures();
    b.to_multiset_ensures();
    assert forall|x: (Seq<u8>, Seq<u8>)| a.contains(x) <==> b.contains(x) by {
        assert(a.to_multiset().count(x) == b.to_multiset().count(x));
    }
}

/// What the reader of an archive decides for an entry behind the manifest is
/// what `reading_of` says of the entry's name.
pub proof fn lemma_archive_reads_by_name(fields: AccountsDbFields, path: Seq<u8>, bytes: Seq<u8>)
    ensures
        match ArchiveSnapshotExtractor::step(ArchiveState::Iterating, Some(fields), path).1 {
            ArchiveAction::Skip => reading_of(fields, file_name(path), bytes) is Skipped,
            ArchiveAction::Fail(e) => e is UnexpectedAppendVec && reading_of(
                fields,
                file_name(path),
                bytes,
            ) is Unexpected,
            ArchiveAction::ReadAppendVec { slot, id, current_len } => fields.plan_of(
                file_name(path),
            ) == (AppendVecPlan::Load { slot, id, current_len }),
            ArchiveAction::ReadManifest => false,
        },
{
}

} // verus!
