use solana_snapshot_etl::bank::{
    list, optional, pair, parse_manifest, repeat, skip_shape, versioned_bank, Shape,
};
use solana_snapshot_etl::solana::{DeserializeError, DeserializeErrorKind};
use std::collections::HashMap;

const EMPTY_BANK_LEN: usize = 535;

fn eof(offset: usize) -> DeserializeError {
    DeserializeError { offset, kind: DeserializeErrorKind::UnexpectedEof }
}

fn invalid(offset: usize) -> DeserializeError {
    DeserializeError { offset, kind: DeserializeErrorKind::InvalidData }
}

fn tail(storages: &[(u64, u64, u64)]) -> Vec<u8> {
    let mut out = Vec::new();
    out.extend_from_slice(&(storages.len() as u64).to_le_bytes());
    for (slot, id, len) in storages {
        for word in [*slot, 1, *id, *len] {
            out.extend_from_slice(&word.to_le_bytes());
        }
    }
    out.extend_from_slice(&[0u8; 8 + 8 + 32 + 32 + 40]);
    out
}

type Key = [u8; 32];
type Account = (u64, Vec<u8>, Key, bool, u64);
type Stakes = (
    HashMap<Key, (u64, Account)>,
    HashMap<Key, (Key, u64, u64, u64, f64)>,
    u64,
    u64,
    Vec<(u64, (u64, u64, u64))>,
);

fn stakes() -> Stakes {
    let mut vote_accounts = HashMap::new();
    vote_accounts.insert([1u8; 32], (10u64, (5u64, vec![1u8, 2, 3, 4, 5], [2u8; 32], true, 9u64)));
    vote_accounts.insert([3u8; 32], (11u64, (6u64, vec![], [4u8; 32], false, 9u64)));
    let mut delegations = HashMap::new();
    delegations.insert([5u8; 32], ([1u8; 32], 100u64, 1u64, u64::MAX, 0.25f64));
    (vote_accounts, delegations, 0, 7, vec![(6, (1, 2, 3)), (5, (4, 5, 6))])
}

/// A bank with something in every collection, as bincode writes it.
fn full_bank() -> Vec<u8> {
    let mut ages = HashMap::new();
    ages.insert([7u8; 32], (5000u64, 1u64, 1_650_000_000u64));
    ages.insert([8u8; 32], (5000u64, 2u64, 1_650_000_001u64));
    let blockhash_queue = (2u64, Some([8u8; 32]), ages, 300u64);
    let mut ancestors = HashMap::new();
    ancestors.insert(99u64, 0u64);
    ancestors.insert(98u64, 1u64);
    let hard_forks = vec![(50u64, 1u64)];
    let epoch_schedule = (432_000u64, 432_000u64, false, 0u64, 0u64);
    let rent_collector = (7u64, epoch_schedule, 78_892_314.98f64, (3480u64, 2.0f64, 50u8));
    let fee_rate_governor = (10_000u64, 20_000u64, 5_000u64, 100_000u64, 50u8);
    let inflation = (0.08f64, 0.015f64, 0.15f64, 0.0f64, 0.0f64, 0.0f64);
    let mut unused3 = HashMap::new();
    unused3.insert([9u8; 32], 1u64);
    let unused_accounts = (vec![[1u8; 32]], Vec::<Key>::new(), unused3);
    let mut node_votes = HashMap::new();
    node_votes.insert([1u8; 32], (vec![[2u8; 32], [3u8; 32]], 10u64));
    let mut voters = HashMap::new();
    voters.insert([2u8; 32], [1u8; 32]);
    let mut epoch_stakes = HashMap::new();
    epoch_stakes.insert(7u64, (stakes(), 21u64, node_votes, voters));

    let mut out = Vec::new();
    out.extend(bincode::serialize(&(blockhash_queue, ancestors, [1u8; 32], [2u8; 32], 99u64)).unwrap());
    out.extend(bincode::serialize(&(hard_forks, 1u64, 2u64, 3u64, 4u64, 5u64)).unwrap());
    out.extend(bincode::serialize(&(Some(12_500u64), 64u64, 400_000_000u128)).unwrap());
    out.extend(bincode::serialize(&(1_600_000_000i64, 78_892_314.98f64, 1u64, 100u64, 7u64, 90u64)).unwrap());
    out.extend(bincode::serialize(&([6u8; 32], 0u64, 5000u64, fee_rate_governor, 0u64)).unwrap());
    out.extend(bincode::serialize(&(rent_collector, epoch_schedule, inflation)).unwrap());
    out.extend(bincode::serialize(&(stakes(), unused_accounts, epoch_stakes, true)).unwrap());
    out
}

#[test]
fn bank_of_zeros_is_an_empty_bank() {
    let data = vec![0u8; EMPTY_BANK_LEN + 3];
    assert_eq!(skip_shape(&versioned_bank(), &data, 0), Ok(EMPTY_BANK_LEN));
    assert_eq!(skip_shape(&versioned_bank(), &data, 3), Ok(EMPTY_BANK_LEN + 3));
    assert_eq!(
        skip_shape(&versioned_bank(), &data[..EMPTY_BANK_LEN - 1], 0),
        Err(eof(EMPTY_BANK_LEN - 1))
    );
}

#[test]
fn bank_written_by_bincode_is_passed_over_whole() {
    let mut data = full_bank();
    let bank_len = data.len();
    assert!(bank_len > EMPTY_BANK_LEN);
    data.extend_from_slice(&[0xFF; 9]);
    assert_eq!(skip_shape(&versioned_bank(), &data, 0), Ok(bank_len));
    for cut in [0, 1, 100, bank_len / 2, bank_len - 1] {
        assert!(matches!(
            skip_shape(&versioned_bank(), &data[..cut], 0),
            Err(DeserializeError { kind: DeserializeErrorKind::UnexpectedEof, .. })
        ));
    }
    data[bank_len - 1] = 2; // the flag at the end of the bank
    assert_eq!(skip_shape(&versioned_bank(), &data, 0), Err(invalid(bank_len - 1)));
}

#[test]
fn manifest_with_an_empty_bank() {
    let mut data = vec![0u8; EMPTY_BANK_LEN];
    data.extend_from_slice(&tail(&[(100, 7, 136 + 32)]));
    let fields = parse_manifest(&data).unwrap();
    assert_eq!(fields.storages.len(), 1);
    assert_eq!(fields.current_len(100, 7), Some(168));
    assert_eq!(fields.current_len(100, 9), None);
}

#[test]
fn manifest_with_a_full_bank() {
    let mut data = full_bank();
    data.extend_from_slice(&tail(&[(1, 2, 3), (4, 5, 6)]));
    let fields = parse_manifest(&data).unwrap();
    assert_eq!(fields.storages.len(), 2);
    assert_eq!(fields.current_len(1, 2), Some(3));
    assert_eq!(fields.current_len(4, 5), Some(6));
}

#[test]
fn manifest_that_ends_with_the_bank_fails_at_its_end() {
    let data = vec![0u8; EMPTY_BANK_LEN];
    assert_eq!(parse_manifest(&data).err(), Some(eof(EMPTY_BANK_LEN)));
    assert_eq!(parse_manifest(&[]).err(), Some(eof(0)));
    assert_eq!(parse_manifest(&data[..40]).err(), Some(eof(33)));
}

#[test]
fn manifest_with_a_broken_bank() {
    let mut data = vec![0u8; EMPTY_BANK_LEN];
    data.extend_from_slice(&tail(&[]));
    data[8] = 2; // the flag of the last hash
    assert_eq!(parse_manifest(&data).err(), Some(invalid(8)));
    data[8] = 0;
    data[EMPTY_BANK_LEN - 1] = 9; // the delta flag
    assert_eq!(parse_manifest(&data).err(), Some(invalid(EMPTY_BANK_LEN - 1)));
}

#[test]
fn fixed_values_and_flags() {
    let data = [1u8, 0, 2, 3, 4, 5, 6, 7, 8, 9];
    assert_eq!(skip_shape(&Shape::Fixed(8), &data, 0), Ok(8));
    assert_eq!(skip_shape(&Shape::Fixed(8), &data, 2), Ok(10));
    assert_eq!(skip_shape(&Shape::Fixed(8), &data, 3), Err(eof(3)));
    assert_eq!(skip_shape(&Shape::Fixed(0), &data, 10), Ok(10));
    assert_eq!(skip_shape(&Shape::Fixed(0), &data, 11), Err(eof(11)));
    assert_eq!(skip_shape(&Shape::Bool, &data, 0), Ok(1));
    assert_eq!(skip_shape(&Shape::Bool, &data, 1), Ok(2));
    assert_eq!(skip_shape(&Shape::Bool, &data, 2), Err(invalid(2)));
    assert_eq!(skip_shape(&Shape::Bool, &data, 10), Err(eof(10)));
}

#[test]
fn values_larger_than_the_size_limit() {
    let limit = 32u64 << 30;
    assert_eq!(solana_snapshot_etl::solana::MAX_STREAM_SIZE, limit);
    let data = [0u8; 16];
    assert_eq!(
        skip_shape(&Shape::Fixed(limit + 1), &data, 0),
        Err(DeserializeError { offset: 0, kind: DeserializeErrorKind::SizeLimit })
    );
    assert_eq!(skip_shape(&Shape::Fixed(limit), &data, 0), Err(eof(0)));
    let mut bytes = (limit + 1).to_le_bytes().to_vec();
    bytes.extend_from_slice(&[0u8; 8]);
    assert_eq!(
        skip_shape(&Shape::Bytes, &bytes, 0),
        Err(DeserializeError { offset: 8, kind: DeserializeErrorKind::SizeLimit })
    );
}

#[test]
fn optional_values_lists_and_bytes() {
    let some = bincode::serialize(&Some(7u64)).unwrap();
    let none = bincode::serialize(&Option::<u64>::None).unwrap();
    let shape = optional(Shape::Fixed(8));
    assert_eq!(skip_shape(&shape, &some, 0), Ok(9));
    assert_eq!(skip_shape(&shape, &none, 0), Ok(1));
    assert_eq!(skip_shape(&shape, &some[..8], 0), Err(eof(1)));
    assert_eq!(skip_shape(&shape, &[2], 0), Err(invalid(0)));

    let items = bincode::serialize(&vec![(1u64, true), (2u64, false), (3u64, true)]).unwrap();
    let shape = list(pair(Shape::Fixed(8), Shape::Bool));
    assert_eq!(skip_shape(&shape, &items, 0), Ok(8 + 3 * 9));
    assert_eq!(skip_shape(&shape, &items[..items.len() - 1], 0), Err(eof(8 + 2 * 9 + 8)));
    assert_eq!(skip_shape(&shape, &items[..8 + 9 + 3], 0), Err(eof(8 + 9)));

    let bytes = bincode::serialize(&vec![9u8; 5]).unwrap();
    assert_eq!(skip_shape(&Shape::Bytes, &bytes, 0), Ok(13));
    assert_eq!(skip_shape(&Shape::Bytes, &bytes[..12], 0), Err(eof(8)));
    assert_eq!(skip_shape(&Shape::Bytes, &bytes[..7], 0), Err(eof(0)));

    let shape = repeat(3, Shape::Fixed(2));
    assert_eq!(skip_shape(&shape, &[0u8; 6], 0), Ok(6));
    assert_eq!(skip_shape(&shape, &[0u8; 5], 0), Err(eof(4)));
    assert_eq!(skip_shape(&repeat(0, Shape::Bool), &[], 0), Ok(0));
}
