use solana_program::bpf_loader_upgradeable::UpgradeableLoaderState;
use solana_snapshot_etl::append_vec::{AccountMeta, StoredAccountMeta, StoredMeta};
use solana_snapshot_etl::append_vec::AppendVec;
use solana_snapshot_etl::programs::{
    find_program, is_plain_loader, is_upgradeable_loader, program_file, program_file_name,
    program_files, select_program, LoaderStateKind, BPF_LOADER_DEPRECATED_ID, BPF_LOADER_ID,
    BPF_LOADER_UPGRADEABLE_ID, PROGRAMDATA_HEADER_LEN, PROGRAM_FILE_MODE,
};
use solana_snapshot_etl::pubkey::Pubkey;

fn account<'a>(owner: [u8; 32], executable: bool, data: &'a [u8]) -> StoredAccountMeta<'a> {
    StoredAccountMeta {
        meta: StoredMeta { write_version: 1, data_len: data.len() as u64, pubkey: Pubkey([1; 32]) },
        account_meta: AccountMeta { lamports: 1, rent_epoch: 0, owner: Pubkey(owner), executable },
        data,
        offset: 0,
        stored_size: 136,
        hash: solana_snapshot_etl::pubkey::Hash([0; 32]),
    }
}

fn program_data(authority: Option<[u8; 32]>, code: &[u8]) -> Vec<u8> {
    let state = UpgradeableLoaderState::ProgramData {
        slot: 5,
        upgrade_authority_address: authority.map(solana_program::pubkey::Pubkey::new_from_array),
    };
    let mut data = bincode::serialize(&state).unwrap();
    data.resize(45, 0);
    data.extend_from_slice(code);
    data
}

#[test]
fn loader_ids_are_those_of_the_sdk() {
    assert_eq!(BPF_LOADER_DEPRECATED_ID, solana_program::bpf_loader_deprecated::id().to_bytes());
    assert_eq!(BPF_LOADER_ID, solana_program::bpf_loader::id().to_bytes());
    assert_eq!(
        BPF_LOADER_UPGRADEABLE_ID,
        solana_program::bpf_loader_upgradeable::id().to_bytes()
    );
    assert_eq!(
        PROGRAMDATA_HEADER_LEN,
        UpgradeableLoaderState::size_of_programdata_metadata()
    );
    assert!(is_plain_loader(&Pubkey(BPF_LOADER_ID)));
    assert!(is_plain_loader(&Pubkey(BPF_LOADER_DEPRECATED_ID)));
    assert!(!is_plain_loader(&Pubkey(BPF_LOADER_UPGRADEABLE_ID)));
    assert!(is_upgradeable_loader(&Pubkey(BPF_LOADER_UPGRADEABLE_ID)));
    assert!(!is_upgradeable_loader(&Pubkey(BPF_LOADER_ID)));
}

#[test]
fn upgradeable_program_is_the_data_behind_the_header() {
    let data = program_data(Some([9; 32]), &[0x90; 8]);
    assert_eq!(data.len(), 53);
    let stored = account(BPF_LOADER_UPGRADEABLE_ID, false, &data);
    let file = program_file(&stored).unwrap();
    assert_eq!(file.name, "4vJ9JU1bJJE96FWSJKvHsmmFADCg4gpZQff4P3bkLKi.so");
    assert_eq!(file.data, &[0x90; 8][..]);
    assert_eq!(file.data.len(), 8);
    assert_eq!(file.mode, 0o644);
    assert_eq!(PROGRAM_FILE_MODE, 0o644);
}

#[test]
fn upgradeable_program_without_authority() {
    let data = program_data(None, &[1, 2, 3]);
    let stored = account(BPF_LOADER_UPGRADEABLE_ID, true, &data);
    assert_eq!(find_program(&stored), Some(&[1u8, 2, 3][..]));
    let empty = program_data(None, &[]);
    let stored = account(BPF_LOADER_UPGRADEABLE_ID, true, &empty);
    assert_eq!(find_program(&stored), Some(&[][..]));
}

#[test]
fn other_upgradeable_accounts_hold_no_program() {
    let states = [
        UpgradeableLoaderState::Uninitialized,
        UpgradeableLoaderState::Buffer { authority_address: None },
        UpgradeableLoaderState::Program {
            programdata_address: solana_program::pubkey::Pubkey::new_from_array([3; 32]),
        },
    ];
    for state in states.iter() {
        let mut data = bincode::serialize(state).unwrap();
        data.resize(100, 0x90);
        let stored = account(BPF_LOADER_UPGRADEABLE_ID, true, &data);
        assert!(find_program(&stored).is_none());
        assert!(program_file(&stored).is_none());
    }
}

#[test]
fn malformed_upgradeable_account_holds_no_program() {
    let stored = account(BPF_LOADER_UPGRADEABLE_ID, true, &[]);
    assert!(find_program(&stored).is_none());
    let stored = account(BPF_LOADER_UPGRADEABLE_ID, true, &[3, 0, 0]);
    assert!(find_program(&stored).is_none());
    let bad_tag = [9u8; 60];
    let stored = account(BPF_LOADER_UPGRADEABLE_ID, true, &bad_tag);
    assert!(find_program(&stored).is_none());
    // a program-data state that ends before the header does
    let short = bincode::serialize(&UpgradeableLoaderState::ProgramData {
        slot: 1,
        upgrade_authority_address: None,
    })
    .unwrap();
    assert_eq!(short.len(), 13);
    let stored = account(BPF_LOADER_UPGRADEABLE_ID, true, &short);
    assert!(find_program(&stored).is_none());
}

#[test]
fn plain_loader_program_is_the_whole_data() {
    let code = [0x7F, b'E', b'L', b'F'];
    for owner in [BPF_LOADER_ID, BPF_LOADER_DEPRECATED_ID] {
        let stored = account(owner, true, &code);
        let file = program_file(&stored).unwrap();
        assert_eq!(file.data, &code[..]);
        assert_eq!(file.name, "4vJ9JU1bJJE96FWSJKvHsmmFADCg4gpZQff4P3bkLKi.so");
        let stored = account(owner, false, &code);
        assert!(program_file(&stored).is_none());
    }
}

#[test]
fn accounts_of_other_owners_hold_no_program() {
    let data = program_data(Some([9; 32]), &[0x90; 8]);
    let stored = account([0; 32], true, &data);
    assert!(find_program(&stored).is_none());
    assert!(select_program(&stored, Some(LoaderStateKind::ProgramData)).is_none());
}

#[test]
fn selection_goes_by_the_given_state() {
    let data = [0u8; 50];
    let stored = account(BPF_LOADER_UPGRADEABLE_ID, false, &data);
    assert_eq!(select_program(&stored, Some(LoaderStateKind::ProgramData)), Some(&[0u8; 5][..]));
    assert!(select_program(&stored, Some(LoaderStateKind::Buffer)).is_none());
    assert!(select_program(&stored, Some(LoaderStateKind::Program)).is_none());
    assert!(select_program(&stored, Some(LoaderStateKind::Uninitialized)).is_none());
    assert!(select_program(&stored, None).is_none());
    let short = [0u8; 44];
    let stored = account(BPF_LOADER_UPGRADEABLE_ID, false, &short);
    assert!(select_program(&stored, Some(LoaderStateKind::ProgramData)).is_none());
}

#[test]
fn program_file_names_are_base58() {
    assert_eq!(
        program_file_name(&Pubkey([2; 32])),
        "8qbHbw2BbbTHBW1sbeqakYXVKRQM8Ne7pLK7m6CVfeR.so"
    );
    assert_eq!(program_file_name(&Pubkey([0; 32])), "11111111111111111111111111111111.so");
}

fn stored_bytes(pubkey: [u8; 32], owner: [u8; 32], executable: bool, data: &[u8]) -> Vec<u8> {
    let mut out = Vec::new();
    out.extend_from_slice(&0u64.to_le_bytes());
    out.extend_from_slice(&(data.len() as u64).to_le_bytes());
    out.extend_from_slice(&pubkey);
    out.extend_from_slice(&1u64.to_le_bytes());
    out.extend_from_slice(&0u64.to_le_bytes());
    out.extend_from_slice(&owner);
    out.push(executable as u8);
    out.extend_from_slice(&[0u8; 7 + 32]);
    out.extend_from_slice(data);
    while out.len() % 8 != 0 {
        out.push(0);
    }
    out
}

#[test]
fn one_file_for_each_program_of_an_append_vec() {
    let upgradeable = program_data(Some([9; 32]), &[0x90; 8]);
    let buffer = bincode::serialize(&UpgradeableLoaderState::Buffer { authority_address: None })
        .unwrap();
    let mut bytes = Vec::new();
    bytes.extend(stored_bytes([1; 32], [0; 32], false, &[1, 2, 3]));
    bytes.extend(stored_bytes([2; 32], BPF_LOADER_ID, true, &[4, 5]));
    bytes.extend(stored_bytes([7; 32], BPF_LOADER_UPGRADEABLE_ID, false, &upgradeable));
    bytes.extend(stored_bytes([3; 32], BPF_LOADER_UPGRADEABLE_ID, false, &buffer));
    bytes.extend(stored_bytes([0; 32], BPF_LOADER_DEPRECATED_ID, false, &[6]));
    bytes.extend(stored_bytes([0xFF; 32], BPF_LOADER_DEPRECATED_ID, true, &[]));
    let len = bytes.len();
    let append_vec = AppendVec::new_from_bytes(bytes, len).unwrap();
    let files = program_files(&append_vec);
    assert_eq!(files.len(), 3);
    assert_eq!(files[0].name, "8qbHbw2BbbTHBW1sbeqakYXVKRQM8Ne7pLK7m6CVfeR.so");
    assert_eq!(files[0].data, &[4, 5][..]);
    assert_eq!(files[1].name, "US517G5965aydkZ46HS38QLi7UQiSojurfbQfKCELFx.so");
    assert_eq!(files[1].data, &upgradeable[45..]);
    assert_eq!(files[1].data, &[0x90; 8][..]);
    assert_eq!(files[2].name, "JEKNVnkbo3jma5nREBBJCDoXFVeKkD56V3xKrvRmWxFG.so");
    assert_eq!(files[2].data.len(), 0);
    assert!(files.iter().all(|f| f.mode == 0o644));
    let empty = AppendVec::new_from_bytes(Vec::new(), 0).unwrap();
    assert!(program_files(&empty).is_empty());
}
