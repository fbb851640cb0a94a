//! Picking the executable programs out of a snapshot.
//!
//! A program of one of the two plain BPF loaders is the whole data of an
//! executable account. A program of the upgradeable loader lies in a
//! program-data account, behind a header of 45 bytes.

use crate::append_vec::{
    decode_record, lemma_record_advances, record_layout, AccountRecord, AppendVec,
    StoredAccountMeta,
};
use crate::bytes::le_u32;
use crate::pubkey::{base58_text, Pubkey};
use bincode::Options;
use solana_program::bpf_loader_upgradeable::UpgradeableLoaderState;
use vstd::prelude::*;
use vstd::slice::slice_subrange;
use vstd::string::StringExecFns;

verus! {

/// `BPFLoader1111111111111111111111111111111111`
pub const BPF_LOADER_DEPRECATED_ID: [u8; 32] = [
    2, 168, 246, 145, 78, 136, 161, 107, 189, 35, 149, 133, 95, 100, 4, 217, 180, 244, 86, 183,
    130, 27, 176, 20, 87, 73, 66, 140, 0, 0, 0, 0,
];

/// `BPFLoader2111111111111111111111111111111111`
pub const BPF_LOADER_ID: [u8; 32] = [
    2, 168, 246, 145, 78, 136, 161, 110, 57, 90, 225, 40, 148, 143, 250, 105, 86, 147, 55, 104,
    24, 221, 71, 67, 82, 33, 243, 198, 0, 0, 0, 0,
];

/// `BPFLoaderUpgradeab1e11111111111111111111111`
pub const BPF_LOADER_UPGRADEABLE_ID: [u8; 32] = [
    2, 168, 246, 145, 78, 136, 161, 176, 226, 16, 21, 62, 247, 99, 174, 43, 0, 194, 185, 61, 22,
    193, 36, 210, 192, 83, 122, 16, 4, 128, 0, 0,
];

/// Bytes of the header of a program-data account.
pub const PROGRAMDATA_HEADER_LEN: usize = 45;

/// The file mode of a program in the archive.
pub const PROGRAM_FILE_MODE: u32 = 0o644;

/// The kind of an account of the upgradeable loader.
#[derive(Clone, Copy, Debug, PartialEq, Eq, Structural)]
pub enum LoaderStateKind {
    Uninitialized,
    Buffer,
    Program,
    ProgramData,
}

/// The bytes that an optional key takes at `at`: one byte that is 0, or one
/// byte that is 1 and the 32 bytes of the key. `None` if no optional key lies
/// there.
pub open spec fn optional_key_len(data: Seq<u8>, at: int) -> Option<int> {
    if at < 0 || at >= data.len() {
        None
    } else if data[at] == 0 {
        Some(1)
    } else if data[at] == 1 && at + 33 <= data.len() {
        Some(33)
    } else {
        None
    }
}

/// The kind of upgradeable-loader state that account data starts with. The
/// state is a 32-bit tag and the fields of its kind: none for an
/// uninitialized account, an optional authority for a buffer, the address of
/// the program data for a program, and a slot and an optional authority for
/// program data. Integers are little-endian and of fixed width, and bytes may
/// follow the state. `None` if the data starts with no such state.
pub open spec fn loader_state_kind(data: Seq<u8>) -> Option<LoaderStateKind> {
    if data.len() < 4 {
        None
    } else if le_u32(data, 0) == 0 {
        Some(LoaderStateKind::Uninitialized)
    } else if le_u32(data, 0) == 1 && optional_key_len(data, 4) is Some {
        Some(LoaderStateKind::Buffer)
    } else if le_u32(data, 0) == 2 && data.len() >= 36 {
        Some(LoaderStateKind::Program)
    } else if le_u32(data, 0) == 3 && data.len() >= 12 && optional_key_len(data, 12) is Some {
        Some(LoaderStateKind::ProgramData)
    } else {
        None
    }
}

/// Calls `bincode::Options::deserialize` for an `UpgradeableLoaderState` of
/// `solana_program`, with the options `with_fixint_encoding` and
/// `allow_trailing_bytes`, and tells the four variants apart. Taken on
/// trust: bincode reads the variant as a 32-bit little-endian tag, an
/// optional key as a byte that is 0 or 1 with the 32 bytes of the key behind
/// a 1, a key as 32 bytes and the slot as 8 bytes, fails where the bytes end
/// early or a tag is none of these, and passes over what follows the state.
#[verifier::external_body]
fn read_loader_state(data: &[u8]) -> (r: Option<LoaderStateKind>)
    ensures
        r == loader_state_kind(data@),
{
    let options = bincode::options().with_fixint_encoding().allow_trailing_bytes();
    match options.deserialize::<UpgradeableLoaderState>(data) {
        Ok(UpgradeableLoaderState::Uninitialized) => Some(LoaderStateKind::Uninitialized),
        Ok(UpgradeableLoaderState::Buffer { .. }) => Some(LoaderStateKind::Buffer),
        Ok(UpgradeableLoaderState::Program { .. }) => Some(LoaderStateKind::Program),
        Ok(UpgradeableLoaderState::ProgramData { .. }) => Some(LoaderStateKind::ProgramData),
        Err(_) => None,
    }
}

/// The kind of upgradeable-loader state that account data starts with.
pub fn loader_state(data: &[u8]) -> (r: Option<LoaderStateKind>)
    ensures
        r == loader_state_kind(data@),
{
    read_loader_state(data)
}

/// The bytes of the program that an account holds, if it holds one. `state`
/// is what the data of an account of the upgradeable loader starts with.
pub open spec fn program_bytes(
    owner: Seq<u8>,
    executable: bool,
    data: Seq<u8>,
    state: Option<LoaderStateKind>,
) -> Option<Seq<u8>> {
    if owner == BPF_LOADER_DEPRECATED_ID@ || owner == BPF_LOADER_ID@ {
        if executable {
            Some(data)
        } else {
            None
        }
    } else if owner == BPF_LOADER_UPGRADEABLE_ID@ {
        if state == Some(LoaderStateKind::ProgramData) && data.len() >= PROGRAMDATA_HEADER_LEN {
            Some(data.skip(PROGRAMDATA_HEADER_LEN as int))
        } else {
            None
        }
    } else {
        None
    }
}

/// The program of an account, with the state of an upgradeable account given.
pub open spec fn program_of(account: AccountRecord, state: Option<LoaderStateKind>) -> Option<
    Seq<u8>,
> {
    program_bytes(account.owner, account.executable, account.data, state)
}

pub fn is_plain_loader(owner: &Pubkey) -> (b: bool)
    ensures
        b == (owner@ == BPF_LOADER_DEPRECATED_ID@ || owner@ == BPF_LOADER_ID@),
{
    *owner == Pubkey(BPF_LOADER_DEPRECATED_ID) || *owner == Pubkey(BPF_LOADER_ID)
}

pub fn is_upgradeable_loader(owner: &Pubkey) -> (b: bool)
    ensures
        b == (owner@ == BPF_LOADER_UPGRADEABLE_ID@),
{
    *owner == Pubkey(BPF_LOADER_UPGRADEABLE_ID)
}

/// Picks the program out of an account, given the state that the data of an
/// account of the upgradeable loader starts with. An account of one of the
/// plain loaders holds a program if it is executable: its whole data. An
/// account of the upgradeable loader holds one if it is a program-data
/// account: its data behind the header. No other account holds a program.
pub fn select_program<'a>(account: &StoredAccountMeta<'a>, state: Option<LoaderStateKind>) -> (r:
    Option<&'a [u8]>)
    ensures
        r is Some <==> program_of(account@, state) is Some,
        r matches Some(bytes) ==> Some(bytes@) == program_of(account@, state),
{
    if is_plain_loader(&account.account_meta.owner) {
        if account.account_meta.executable {
            Some(account.data)
        } else {
            None
        }
    } else if is_upgradeable_loader(&account.account_meta.owner) {
        assert(BPF_LOADER_UPGRADEABLE_ID@[7] != BPF_LOADER_ID@[7]);
        match state {
            Some(LoaderStateKind::ProgramData) => {
                if account.data.len() >= PROGRAMDATA_HEADER_LEN {
                    Some(slice_subrange(account.data, PROGRAMDATA_HEADER_LEN, account.data.len()))
                } else {
                    None
                }
            },
            _ => None,
        }
    } else {
        None
    }
}

/// The state to look at for an account: that of its data if the upgradeable
/// loader owns it.
pub open spec fn state_of(account: AccountRecord) -> Option<LoaderStateKind> {
    if account.owner == BPF_LOADER_UPGRADEABLE_ID@ {
        loader_state_kind(account.data)
    } else {
        None
    }
}

/// Picks the program out of an account.
pub fn find_program<'a>(account: &StoredAccountMeta<'a>) -> (r: Option<&'a [u8]>)
    ensures
        r is Some <==> program_of(account@, state_of(account@)) is Some,
        r matches Some(bytes) ==> Some(bytes@) == program_of(account@, state_of(account@)),
{
    let state = if is_upgradeable_loader(&account.account_meta.owner) {
        read_loader_state(account.data)
    } else {
        None
    };
    select_program(account, state)
}

/// The name of a program's file in the archive: its address and `.so`.
pub fn program_file_name(address: &Pubkey) -> (name: String)
    ensures
        name@ == base58_text(address@) + ".so"@,
{
    address.to_string().concat(".so")
}

/// One file of the program archive.
#[derive(Debug)]
pub struct ProgramFile<'a> {
    pub name: String,
    pub mode: u32,
    pub data: &'a [u8],
}

/// The file that an account adds to the program archive, if it holds a
/// program.
pub fn program_file<'a>(account: &StoredAccountMeta<'a>) -> (r: Option<ProgramFile<'a>>)
    ensures
        r is Some <==> program_of(account@, state_of(account@)) is Some,
        r matches Some(file) ==> {
            &&& Some(file.data@) == program_of(account@, state_of(account@))
            &&& file.name@ == base58_text(account.meta.pubkey@) + ".so"@
            &&& file.mode == PROGRAM_FILE_MODE
        },
{
    match find_program(account) {
        Some(data) => Some(
            ProgramFile {
                name: program_file_name(&account.meta.pubkey),
                mode: PROGRAM_FILE_MODE,
                data,
            },
        ),
        None => None,
    }
}

/// The programs of the records read from `from`, in their order: the name of
/// each program's file and its bytes.
pub open spec fn programs_in(bytes: Seq<u8>, from: int) -> Seq<(Seq<char>, Seq<u8>)>
    decreases bytes.len() + 8 - from,
{
    match record_layout(bytes, from) {
        Some(l) => {
            let account = decode_record(bytes, l);
            (match program_of(account, state_of(account)) {
                Some(program) => seq![(base58_text(account.pubkey) + ".so"@, program)],
                None => Seq::empty(),
            }) + programs_in(bytes, l.next)
        },
        None => Seq::empty(),
    }
}

/// The names and bytes of a list of files.
pub open spec fn file_views(files: Seq<ProgramFile>) -> Seq<(Seq<char>, Seq<u8>)> {
    Seq::new(files.len(), |i: int| (files[i].name@, files[i].data@))
}

/// The files that an AppendVec adds to the program archive: one for each
/// record that holds a program, in the order of the records.
pub fn program_files<'a>(append_vec: &'a AppendVec) -> (files: Vec<ProgramFile<'a>>)
    ensures
        file_views(files@) == programs_in(append_vec@, 0),
        forall|i: int| 0 <= i < files@.len() ==> (#[trigger] files@[i]).mode == PROGRAM_FILE_MODE,
{
    let mut files: Vec<ProgramFile<'a>> = Vec::new();
    let mut offset: usize = 0;
    let ghost bytes = append_vec@;
    assert(file_views(files@) =~= Seq::empty());
    loop
        invariant
            bytes == append_vec@,
            programs_in(bytes, 0) =~= file_views(files@) + programs_in(bytes, offset as int),
            forall|i: int|
                0 <= i < files@.len() ==> (#[trigger] files@[i]).mode == PROGRAM_FILE_MODE,
        ensures
            programs_in(bytes, 0) =~= file_views(files@),
            forall|i: int|
                0 <= i < files@.len() ==> (#[trigger] files@[i]).mode == PROGRAM_FILE_MODE,
        decreases bytes.len() + 8 - offset,
    {
        match append_vec.get_account(offset) {
            None => {
                break ;
            },
            Some((account, next)) => {
                proof {
                    lemma_record_advances(bytes, offset as int);
                }
                let ghost before = files@;
                match program_file(&account) {
                    Some(file) => {
                        files.push(file);
                        assert(file_views(files@) =~= file_views(before).push(
                            (files@[before.len() as int].name@, files@[before.len() as int].data@),
                        ));
                    },
                    None => {},
                }
                offset = next;
            },
        }
    }
    files
}

} // verus!
