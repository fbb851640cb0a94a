use solana_snapshot_etl::solana::{
    parse_accounts_db_fields, AccountsDbFields, AppendVecPlan, DeserializeError,
    DeserializeErrorKind, SerializableAccountStorageEntry,
};
use solana_snapshot_etl::SnapshotError;
use std::collections::HashMap;

fn word(out: &mut Vec<u8>, v: u64) {
    out.extend_from_slice(&v.to_le_bytes());
}

/// The manifest tail with the given AppendVec lists, without the two lists of roots.
fn manifest_tail(storages: &[(u64, &[(u64, u64)])]) -> Vec<u8> {
    let mut out = Vec::new();
    word(&mut out, storages.len() as u64);
    for (slot, entries) in storages {
        word(&mut out, *slot);
        word(&mut out, entries.len() as u64);
        for (id, len) in entries.iter() {
            word(&mut out, *id);
            word(&mut out, *len);
        }
    }
    word(&mut out, 77); // write version
    word(&mut out, 100); // slot
    out.extend_from_slice(&[0x11; 32]);
    out.extend_from_slice(&[0x22; 32]);
    for stat in 1..=5u64 {
        word(&mut out, stat);
    }
    out
}

fn fields_of(storages: &[(u64, &[(u64, u64)])]) -> AccountsDbFields {
    let mut map = HashMap::new();
    for (slot, entries) in storages {
        map.insert(
            *slot,
            entries
                .iter()
                .map(|(id, len)| SerializableAccountStorageEntry {
                    id: *id,
                    accounts_current_len: *len,
                })
                .collect(),
        );
    }
    AccountsDbFields::new(map)
}

#[test]
fn manifest_tail_without_root_lists() {
    let bytes = manifest_tail(&[(100, &[(7, 168)])]);
    let (fields, end) = parse_accounts_db_fields(&bytes, 0).unwrap();
    assert_eq!(end, bytes.len());
    assert_eq!(fields.storages.len(), 1);
    let entries = &fields.storages[&100];
    assert_eq!(entries.len(), 1);
    assert_eq!(entries[0].id, 7);
    assert_eq!(entries[0].accounts_current_len, 168);
    assert_eq!(fields.write_version, 77);
    assert_eq!(fields.slot, 100);
    assert_eq!(fields.bank_hash_info.hash.0, [0x11; 32]);
    assert_eq!(fields.bank_hash_info.snapshot_hash.0, [0x22; 32]);
    assert_eq!(fields.bank_hash_info.stats.num_updated_accounts, 1);
    assert_eq!(fields.bank_hash_info.stats.num_removed_accounts, 2);
    assert_eq!(fields.bank_hash_info.stats.num_lamports_stored, 3);
    assert_eq!(fields.bank_hash_info.stats.total_data_len, 4);
    assert_eq!(fields.bank_hash_info.stats.num_executable_accounts, 5);
    assert!(fields.historical_roots.is_empty());
    assert!(fields.historical_roots_with_hash.is_empty());
}

#[test]
fn manifest_tail_with_root_lists() {
    let mut bytes = vec![0xEE; 5];
    bytes.extend_from_slice(&manifest_tail(&[(3, &[(1, 10), (2, 20)]), (4, &[])]));
    word(&mut bytes, 2);
    word(&mut bytes, 90);
    word(&mut bytes, 91);
    word(&mut bytes, 1);
    word(&mut bytes, 92);
    bytes.extend_from_slice(&[0x33; 32]);
    bytes.extend_from_slice(&[0xAB; 3]);
    let (fields, end) = parse_accounts_db_fields(&bytes, 5).unwrap();
    assert_eq!(end, bytes.len() - 3);
    assert_eq!(fields.storages.len(), 2);
    assert_eq!(fields.storages[&3].len(), 2);
    assert_eq!(fields.storages[&3][1].id, 2);
    assert_eq!(fields.storages[&3][1].accounts_current_len, 20);
    assert!(fields.storages[&4].is_empty());
    assert_eq!(fields.historical_roots, vec![90, 91]);
    assert_eq!(fields.historical_roots_with_hash.len(), 1);
    assert_eq!(fields.historical_roots_with_hash[0].0, 92);
    assert_eq!(fields.historical_roots_with_hash[0].1 .0, [0x33; 32]);
}

#[test]
fn root_list_cut_short_is_empty() {
    let mut bytes = manifest_tail(&[(100, &[(7, 168)])]);
    word(&mut bytes, 3);
    word(&mut bytes, 90);
    bytes.extend_from_slice(&[1, 2, 3]);
    let (fields, end) = parse_accounts_db_fields(&bytes, 0).unwrap();
    assert_eq!(end, bytes.len());
    assert!(fields.historical_roots.is_empty());
    assert!(fields.historical_roots_with_hash.is_empty());
}

#[test]
fn second_root_list_cut_short_is_empty() {
    let mut bytes = manifest_tail(&[]);
    word(&mut bytes, 1);
    word(&mut bytes, 90);
    word(&mut bytes, 1);
    word(&mut bytes, 92);
    bytes.extend_from_slice(&[0x33; 31]);
    let (fields, end) = parse_accounts_db_fields(&bytes, 0).unwrap();
    assert_eq!(end, bytes.len());
    assert_eq!(fields.historical_roots, vec![90]);
    assert!(fields.historical_roots_with_hash.is_empty());
}

#[test]
fn later_list_of_a_slot_replaces_the_earlier() {
    let bytes = manifest_tail(&[(5, &[(1, 10)]), (5, &[(2, 20)])]);
    let (fields, _) = parse_accounts_db_fields(&bytes, 0).unwrap();
    assert_eq!(fields.storages.len(), 1);
    assert_eq!(fields.current_len(5, 1), None);
    assert_eq!(fields.current_len(5, 2), Some(20));
}

#[test]
fn manifest_cut_inside_the_map_fails_at_the_missing_field() {
    let bytes = manifest_tail(&[(100, &[(7, 168)])]);
    let err = parse_accounts_db_fields(&bytes[..30], 0).err().unwrap();
    assert_eq!(
        err,
        DeserializeError { offset: 24, kind: DeserializeErrorKind::UnexpectedEof }
    );
    let err = parse_accounts_db_fields(&bytes[..bytes.len() - 1], 0).err().unwrap();
    assert_eq!(
        err,
        DeserializeError { offset: bytes.len() - 8, kind: DeserializeErrorKind::UnexpectedEof }
    );
    let err = parse_accounts_db_fields(&[], 0).err().unwrap();
    assert_eq!(err, DeserializeError { offset: 0, kind: DeserializeErrorKind::UnexpectedEof });
}

#[test]
fn list_longer_than_the_bytes_fails() {
    let mut bytes = Vec::new();
    word(&mut bytes, 1);
    word(&mut bytes, 100);
    word(&mut bytes, u64::MAX);
    word(&mut bytes, 7);
    word(&mut bytes, 168);
    let err = parse_accounts_db_fields(&bytes, 0).err().unwrap();
    assert_eq!(err.offset, 40);
    assert_eq!(err.kind, DeserializeErrorKind::UnexpectedEof);
}

#[test]
fn deserialize_error_messages() {
    let eof = DeserializeError { offset: 3, kind: DeserializeErrorKind::UnexpectedEof };
    assert_eq!(eof.message(), "io error: unexpected end of file");
    let limit = DeserializeError { offset: 3, kind: DeserializeErrorKind::SizeLimit };
    assert_eq!(limit.message(), "the size limit has been reached");
    let invalid = DeserializeError { offset: 3, kind: DeserializeErrorKind::InvalidData };
    assert_eq!(invalid.message(), "invalid data");
    assert_eq!(
        eof.into_snapshot_error().to_string(),
        "Failed to deserialize: io error: unexpected end of file"
    );
}

#[test]
fn current_len_takes_the_first_entry_with_the_id() {
    let fields = fields_of(&[(100, &[(7, 168), (8, 16), (7, 99)]), (101, &[(7, 1)])]);
    assert_eq!(fields.current_len(100, 7), Some(168));
    assert_eq!(fields.current_len(100, 8), Some(16));
    assert_eq!(fields.current_len(101, 7), Some(1));
    assert_eq!(fields.current_len(100, 9), None);
    assert_eq!(fields.current_len(102, 7), None);
}

#[test]
fn plan_follows_name_and_manifest() {
    let fields = fields_of(&[(100, &[(7, 168)])]);
    assert!(matches!(
        fields.plan_append_vec(b"100.7"),
        AppendVecPlan::Load { slot: 100, id: 7, current_len: 168 }
    ));
    assert!(matches!(
        fields.plan_append_vec(b"100.9"),
        AppendVecPlan::Unexpected { slot: 100, id: 9 }
    ));
    assert!(matches!(fields.plan_append_vec(b"status_cache"), AppendVecPlan::NotAnAppendVec));
    assert!(matches!(fields.plan_append_vec(b"100"), AppendVecPlan::NotAnAppendVec));
}

#[test]
fn opened_append_vec_has_the_manifest_length() {
    let fields = fields_of(&[(100, &[(7, 168)])]);
    let vec = fields.open_append_vec(100, 7, vec![0u8; 200]).unwrap();
    assert_eq!(vec.len(), 168);
    let vec = fields.open_append_vec(100, 7, vec![0u8; 168]).unwrap();
    assert_eq!(vec.len(), 168);
}

#[test]
fn unknown_append_vec_is_unexpected() {
    let fields = fields_of(&[(100, &[(7, 168)])]);
    let err = fields.open_append_vec(100, 9, vec![0u8; 200]).err().unwrap();
    assert!(matches!(err, SnapshotError::UnexpectedAppendVec));
    let err = fields.open_append_vec(99, 7, vec![0u8; 200]).err().unwrap();
    assert!(matches!(err, SnapshotError::UnexpectedAppendVec));
}

#[test]
fn append_vec_shorter_than_the_manifest_says_is_an_io_error() {
    let fields = fields_of(&[(100, &[(7, 168)])]);
    let err = fields.open_append_vec(100, 7, vec![0u8; 167]).err().unwrap();
    assert!(matches!(err, SnapshotError::IOError(_)));
}
