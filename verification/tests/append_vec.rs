use solana_snapshot_etl::append_vec::AppendVec;
use solana_snapshot_etl::{append_vec_iter, parse_append_vec_name, SnapshotError};
use std::rc::Rc;

fn record(
    write_version: u64,
    pubkey: [u8; 32],
    lamports: u64,
    rent_epoch: u64,
    owner: [u8; 32],
    executable: bool,
    hash: [u8; 32],
    data: &[u8],
) -> Vec<u8> {
    let mut out = Vec::new();
    out.extend_from_slice(&write_version.to_le_bytes());
    out.extend_from_slice(&(data.len() as u64).to_le_bytes());
    out.extend_from_slice(&pubkey);
    out.extend_from_slice(&lamports.to_le_bytes());
    out.extend_from_slice(&rent_epoch.to_le_bytes());
    out.extend_from_slice(&owner);
    out.push(executable as u8);
    out.extend_from_slice(&[0u8; 7]);
    out.extend_from_slice(&hash);
    out.extend_from_slice(data);
    while out.len() % 8 != 0 {
        out.push(0);
    }
    out
}

#[test]
fn single_record_is_decoded_field_by_field() {
    let bytes = record(9, [1; 32], 42, 7, [2; 32], true, [3; 32], &[0xAA; 32]);
    assert_eq!(bytes.len(), 136 + 32);
    let vec = AppendVec::new_from_bytes(bytes, 168).unwrap();
    assert_eq!(vec.len(), 168);
    let (account, next) = vec.get_account(0).unwrap();
    assert_eq!(next, 168);
    assert_eq!(account.meta.write_version, 9);
    assert_eq!(account.meta.data_len, 32);
    assert_eq!(account.meta.pubkey.0, [1; 32]);
    assert_eq!(account.account_meta.lamports, 42);
    assert_eq!(account.account_meta.rent_epoch, 7);
    assert_eq!(account.account_meta.owner.0, [2; 32]);
    assert!(account.account_meta.executable);
    assert_eq!(account.hash.0, [3; 32]);
    assert_eq!(account.data, &[0xAA; 32][..]);
    assert_eq!(account.offset, 0);
    assert_eq!(account.stored_size, 168);
    assert!(vec.get_account(168).is_none());
}

#[test]
fn payload_is_padded_to_a_word() {
    let mut bytes = record(1, [4; 32], 5, 0, [6; 32], false, [0; 32], &[1, 2, 3]);
    assert_eq!(bytes.len(), 144);
    bytes.extend_from_slice(&record(2, [7; 32], 8, 0, [9; 32], false, [0; 32], &[]));
    let vec = Rc::new(AppendVec::new_from_bytes(bytes, 280).unwrap());
    let handles = append_vec_iter(Rc::clone(&vec));
    assert_eq!(handles.len(), 2);
    let first = handles[0].access().unwrap();
    assert_eq!(first.data, &[1, 2, 3][..]);
    assert_eq!(first.stored_size, 144);
    let second = handles[1].access().unwrap();
    assert_eq!(second.offset, 144);
    assert_eq!(second.meta.pubkey.0, [7; 32]);
    assert_eq!(second.data.len(), 0);
    assert_eq!(second.stored_size, 136);
}

#[test]
fn bytes_behind_the_manifest_length_are_ignored() {
    let mut bytes = record(1, [1; 32], 1, 0, [1; 32], false, [0; 32], &[]);
    bytes.extend_from_slice(&record(2, [2; 32], 2, 0, [2; 32], false, [0; 32], &[]));
    let vec = Rc::new(AppendVec::new_from_bytes(bytes, 136).unwrap());
    assert_eq!(vec.len(), 136);
    assert_eq!(append_vec_iter(vec).len(), 1);
}

#[test]
fn partial_tail_ends_the_iteration() {
    let mut bytes = record(1, [1; 32], 1, 0, [1; 32], false, [0; 32], &[5; 16]);
    bytes.extend_from_slice(&[0xFF; 100]);
    let vec = Rc::new(AppendVec::new_from_bytes(bytes, 252).unwrap());
    let handles = append_vec_iter(vec);
    assert_eq!(handles.len(), 1);
}

#[test]
fn overrunning_payload_is_no_record() {
    let mut bytes = record(1, [1; 32], 1, 0, [1; 32], false, [0; 32], &[5; 16]);
    bytes[8..16].copy_from_slice(&17u64.to_le_bytes());
    let vec = AppendVec::new_from_bytes(bytes, 152).unwrap();
    assert!(vec.get_account(0).is_none());
    assert!(append_vec_iter(Rc::new(vec)).is_empty());
}

#[test]
fn empty_buffer_has_no_records() {
    let vec = AppendVec::new_from_bytes(Vec::new(), 0).unwrap();
    assert!(vec.is_empty());
    assert!(vec.get_account(0).is_none());
    assert!(append_vec_iter(Rc::new(vec)).is_empty());
}

#[test]
fn source_shorter_than_manifest_length_is_an_io_error() {
    let err = AppendVec::new_from_bytes(vec![0u8; 10], 11).err().unwrap();
    assert!(matches!(err, SnapshotError::IOError(_)));
}

#[test]
fn unaligned_offset_aligns_each_part() {
    let mut bytes = vec![0u8; 3];
    // stored meta at 3, account meta at align8(51) = 56, hash at 112, payload at 144
    bytes.extend_from_slice(&11u64.to_le_bytes());
    bytes.extend_from_slice(&2u64.to_le_bytes());
    bytes.extend_from_slice(&[8; 32]);
    bytes.resize(56, 0);
    bytes.extend_from_slice(&77u64.to_le_bytes());
    bytes.extend_from_slice(&0u64.to_le_bytes());
    bytes.extend_from_slice(&[9; 32]);
    bytes.push(0);
    bytes.resize(112, 0);
    bytes.extend_from_slice(&[6; 32]);
    bytes.extend_from_slice(&[0xEE, 0xDD]);
    let vec = AppendVec::new_from_bytes(bytes, 146).unwrap();
    let (account, next) = vec.get_account(3).unwrap();
    assert_eq!(account.meta.write_version, 11);
    assert_eq!(account.account_meta.lamports, 77);
    assert_eq!(account.account_meta.owner.0, [9; 32]);
    assert_eq!(account.hash.0, [6; 32]);
    assert_eq!(account.data, &[0xEE, 0xDD][..]);
    assert_eq!(next, 152);
    assert_eq!(account.stored_size, 149);
}

#[test]
fn append_vec_names() {
    assert_eq!(parse_append_vec_name(b"100.7"), Some((100, 7)));
    assert_eq!(parse_append_vec_name(b"0.0"), Some((0, 0)));
    assert_eq!(parse_append_vec_name(b"+1.+2"), Some((1, 2)));
    assert_eq!(
        parse_append_vec_name(b"18446744073709551615.18446744073709551615"),
        Some((u64::MAX, u64::MAX))
    );
    assert_eq!(parse_append_vec_name(b"18446744073709551616.1"), None);
    assert_eq!(parse_append_vec_name(b"100"), None);
    assert_eq!(parse_append_vec_name(b"100."), None);
    assert_eq!(parse_append_vec_name(b".7"), None);
    assert_eq!(parse_append_vec_name(b"100.7.1"), None);
    assert_eq!(parse_append_vec_name(b"-1.7"), None);
    assert_eq!(parse_append_vec_name(b"1 .7"), None);
    assert_eq!(parse_append_vec_name(b"a.b"), None);
    assert_eq!(parse_append_vec_name(b""), None);
}

#[test]
fn error_messages() {
    assert_eq!(SnapshotError::NoStatusCache.to_string(), "Missing status cache");
    assert_eq!(
        SnapshotError::NoSnapshotManifest.to_string(),
        "No snapshot manifest file found"
    );
    assert_eq!(SnapshotError::UnexpectedAppendVec.to_string(), "Unexpected AppendVec");
    assert_eq!(
        SnapshotError::BincodeError("eof".to_string()).to_string(),
        "Failed to deserialize: eof"
    );
    assert_eq!(SnapshotError::IOError("gone".to_string()).to_string(), "gone");
}

#[test]
fn iteration_ends_within_a_record_of_the_end() {
    for tail in [0usize, 1, 7, 8, 100, 135] {
        let mut bytes = record(1, [1; 32], 1, 0, [1; 32], false, [0; 32], &[5; 16]);
        bytes.extend_from_slice(&record(2, [2; 32], 2, 0, [2; 32], false, [0; 32], &[6; 3]));
        bytes.extend_from_slice(&vec![0xFF; tail]);
        let len = bytes.len();
        let vec = Rc::new(AppendVec::new_from_bytes(bytes, len).unwrap());
        let handles = append_vec_iter(Rc::clone(&vec));
        assert_eq!(handles.len(), 2);
        let footprint: usize = handles.iter().map(|h| h.access().unwrap().stored_size).sum();
        assert_eq!(footprint, 152 + 144);
        assert!(footprint <= len);
        assert!(footprint + 136 > len);
        assert!(vec.get_account(footprint).is_none());
    }
}

#[test]
fn last_record_may_end_in_the_last_word() {
    let mut bytes = record(1, [1; 32], 1, 0, [1; 32], false, [0; 32], &[5; 3]);
    bytes.truncate(139);
    let vec = Rc::new(AppendVec::new_from_bytes(bytes, 139).unwrap());
    let handles = append_vec_iter(Rc::clone(&vec));
    assert_eq!(handles.len(), 1);
    let account = handles[0].access().unwrap();
    assert_eq!(account.data, &[5; 3][..]);
    assert_eq!(account.stored_size, 144);
    assert!(vec.get_account(144).is_none());
}
