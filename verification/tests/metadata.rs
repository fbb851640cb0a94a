use borsh::BorshSerialize;
use solana_snapshot_etl::mpl_metadata::{
    decode_metadata_account, read_account_key, read_creator_list, read_metadata_ext,
    read_metadata_ext_v1_2, AccountKey, MetadataAccount,
};
use solana_snapshot_etl::wire::{
    read_bool, read_key, read_option_u8, read_string, read_u16, read_u32, read_u64, read_u8,
};

fn put<T: BorshSerialize>(out: &mut Vec<u8>, value: &T) {
    out.extend_from_slice(&value.try_to_vec().unwrap());
}

/// A metadata record as the token-metadata program writes it, without the tag byte.
fn metadata_record(
    name: &str,
    symbol: &str,
    uri: &str,
    fee: u16,
    creators: Option<Vec<([u8; 32], bool, u8)>>,
    primary_sale_happened: bool,
    is_mutable: bool,
) -> Vec<u8> {
    let mut out = Vec::new();
    put(&mut out, &[0xA1u8; 32]);
    put(&mut out, &[0xB2u8; 32]);
    put(&mut out, &name.to_string());
    put(&mut out, &symbol.to_string());
    put(&mut out, &uri.to_string());
    put(&mut out, &fee);
    put(&mut out, &creators);
    put(&mut out, &primary_sale_happened);
    put(&mut out, &is_mutable);
    out
}

#[test]
fn primitives_are_read_as_borsh_writes_them() {
    let mut bytes = vec![0xFFu8];
    put(&mut bytes, &0xABu8);
    put(&mut bytes, &0x1234u16);
    put(&mut bytes, &0xDEADBEEFu32);
    put(&mut bytes, &0x0102030405060708u64);
    put(&mut bytes, &true);
    put(&mut bytes, &Some(9u8));
    put(&mut bytes, &Option::<u8>::None);
    put(&mut bytes, &"héllo".to_string());
    assert_eq!(read_u8(&bytes, 1), Some((0xAB, 2)));
    assert_eq!(read_u16(&bytes, 2), Some((0x1234, 4)));
    assert_eq!(read_u32(&bytes, 4), Some((0xDEADBEEF, 8)));
    assert_eq!(read_u64(&bytes, 8), Some((0x0102030405060708, 16)));
    assert_eq!(read_bool(&bytes, 16), Some((true, 17)));
    assert_eq!(read_option_u8(&bytes, 17), Some((Some(9), 19)));
    assert_eq!(read_option_u8(&bytes, 19), Some((None, 20)));
    assert_eq!(read_string(&bytes, 20), Some(("héllo".to_string(), 30)));
    assert_eq!(read_u8(&bytes, 30), None);
    assert_eq!(read_u16(&bytes, 29), None);
    assert_eq!(read_u32(&bytes, 27), None);
    assert_eq!(read_u64(&bytes, 23), None);
    assert_eq!(read_u64(&bytes, usize::MAX), None);
}

#[test]
fn bool_and_option_tags_above_one_are_refused() {
    assert_eq!(read_bool(&[0], 0), Some((false, 1)));
    assert_eq!(read_bool(&[2], 0), None);
    assert_eq!(read_bool(&[], 0), None);
    assert_eq!(read_option_u8(&[2, 5], 0), None);
    assert_eq!(read_option_u8(&[1], 0), None);
    assert_eq!(read_option_u8(&[], 0), None);
}

#[test]
fn strings_must_be_utf8_and_complete() {
    assert_eq!(read_string(&[0, 0, 0, 0], 0), Some((String::new(), 4)));
    assert_eq!(read_string(&[2, 0, 0, 0, 0xC3, 0xA9], 0), Some(("é".to_string(), 6)));
    assert_eq!(read_string(&[2, 0, 0, 0, 0xC3, 0x28], 0), None);
    assert_eq!(read_string(&[1, 0, 0, 0, 0xFF], 0), None);
    assert_eq!(read_string(&[3, 0, 0, 0, b'a', b'b'], 0), None);
    assert_eq!(read_string(&[0xFF, 0xFF, 0xFF, 0xFF, b'a'], 0), None);
    assert_eq!(read_string(&[1, 0, 0], 0), None);
}

#[test]
fn keys_take_thirty_two_bytes() {
    let mut bytes = vec![0u8; 3];
    bytes.extend_from_slice(&[7u8; 32]);
    let (key, next) = read_key(&bytes, 3).unwrap();
    assert_eq!(key.0, [7u8; 32]);
    assert_eq!(next, 35);
    assert!(read_key(&bytes, 4).is_none());
}

#[test]
fn account_keys_follow_the_tag() {
    let expected = [
        AccountKey::Uninitialized,
        AccountKey::EditionV1,
        AccountKey::MasterEditionV1,
        AccountKey::ReservationListV1,
        AccountKey::MetadataV1,
        AccountKey::ReservationListV2,
        AccountKey::MasterEditionV2,
        AccountKey::EditionMarker,
        AccountKey::UseAuthorityRecord,
        AccountKey::CollectionAuthorityRecord,
    ];
    for (tag, key) in expected.iter().enumerate() {
        assert_eq!(read_account_key(&[tag as u8], 0), Some((*key, 1)));
    }
    assert_eq!(read_account_key(&[10], 0), None);
    assert_eq!(read_account_key(&[255], 0), None);
    assert_eq!(read_account_key(&[], 0), None);
}

#[test]
fn metadata_with_both_extensions() {
    let mut data = vec![4u8];
    data.extend_from_slice(&metadata_record(
        "Name",
        "SYM",
        "https://example.org/1.json",
        250,
        Some(vec![([0xC3; 32], true, 60), ([0xC4; 32], false, 40)]),
        true,
        false,
    ));
    put(&mut data, &Some(254u8)); // edition nonce
    put(&mut data, &Some(0u8)); // token standard
    put(&mut data, &Some((true, [0xD5u8; 32]))); // collection
    put(&mut data, &Some((1u8, 3u64, 5u64))); // uses
    data.extend_from_slice(&[0u8; 40]);
    match decode_metadata_account(&data) {
        MetadataAccount::Decoded { metadata, ext, ext_v1_2 } => {
            assert_eq!(metadata.update_authority.0, [0xA1; 32]);
            assert_eq!(metadata.mint.0, [0xB2; 32]);
            assert_eq!(metadata.data.name, "Name");
            assert_eq!(metadata.data.symbol, "SYM");
            assert_eq!(metadata.data.uri, "https://example.org/1.json");
            assert_eq!(metadata.data.seller_fee_basis_points, 250);
            let creators = metadata.data.creators.unwrap();
            assert_eq!(creators.len(), 2);
            assert_eq!(creators[0].address.0, [0xC3; 32]);
            assert!(creators[0].verified);
            assert_eq!(creators[0].share, 60);
            assert_eq!(creators[1].address.0, [0xC4; 32]);
            assert!(!creators[1].verified);
            assert_eq!(creators[1].share, 40);
            assert!(metadata.primary_sale_happened);
            assert!(!metadata.is_mutable);
            assert_eq!(ext.unwrap().edition_nonce, Some(254));
            let ext_v1_2 = ext_v1_2.unwrap();
            assert_eq!(ext_v1_2.token_standard, Some(0));
            let collection = ext_v1_2.collection.unwrap();
            assert!(collection.verified);
            assert_eq!(collection.key.0, [0xD5; 32]);
            let uses = ext_v1_2.uses.unwrap();
            assert_eq!(uses.use_method, 1);
            assert_eq!(uses.remaining, 3);
            assert_eq!(uses.total, 5);
        }
        _ => panic!("metadata account was not decoded"),
    }
}

#[test]
fn metadata_that_ends_behind_the_record_has_no_extensions() {
    let mut data = vec![4u8];
    data.extend_from_slice(&metadata_record("N", "", "", 0, None, false, true));
    match decode_metadata_account(&data) {
        MetadataAccount::Decoded { metadata, ext, ext_v1_2 } => {
            assert_eq!(metadata.data.name, "N");
            assert!(metadata.data.creators.is_none());
            assert!(metadata.is_mutable);
            assert!(ext.is_none());
            assert!(ext_v1_2.is_none());
        }
        _ => panic!("metadata account was not decoded"),
    }
}

#[test]
fn second_extension_is_optional_behind_the_first() {
    let mut data = vec![4u8];
    data.extend_from_slice(&metadata_record("N", "S", "U", 1, Some(vec![]), false, false));
    put(&mut data, &Option::<u8>::None);
    data.push(7); // no token standard flag
    match decode_metadata_account(&data) {
        MetadataAccount::Decoded { metadata, ext, ext_v1_2 } => {
            assert_eq!(metadata.data.creators.unwrap().len(), 0);
            assert_eq!(ext.unwrap().edition_nonce, None);
            assert!(ext_v1_2.is_none());
        }
        _ => panic!("metadata account was not decoded"),
    }
}

#[test]
fn zero_padding_reads_as_empty_extensions() {
    let mut data = vec![4u8];
    data.extend_from_slice(&metadata_record("N", "S", "U", 1, None, false, false));
    data.extend_from_slice(&[0u8; 16]);
    match decode_metadata_account(&data) {
        MetadataAccount::Decoded { ext, ext_v1_2, .. } => {
            assert_eq!(ext.unwrap().edition_nonce, None);
            let ext_v1_2 = ext_v1_2.unwrap();
            assert_eq!(ext_v1_2.token_standard, None);
            assert!(ext_v1_2.collection.is_none());
            assert!(ext_v1_2.uses.is_none());
        }
        _ => panic!("metadata account was not decoded"),
    }
}

#[test]
fn accounts_of_other_kinds_are_no_metadata() {
    assert!(matches!(decode_metadata_account(&[]), MetadataAccount::NotMetadata));
    assert!(matches!(decode_metadata_account(&[0, 1, 2]), MetadataAccount::NotMetadata));
    assert!(matches!(decode_metadata_account(&[6; 100]), MetadataAccount::NotMetadata));
    assert!(matches!(decode_metadata_account(&[10]), MetadataAccount::NotMetadata));
}

#[test]
fn broken_metadata_record_is_malformed() {
    assert!(matches!(decode_metadata_account(&[4]), MetadataAccount::Malformed));
    let mut data = vec![4u8];
    data.extend_from_slice(&metadata_record("Name", "SYM", "uri", 1, None, true, true));
    let last = data.len() - 1;
    assert!(matches!(decode_metadata_account(&data[..last]), MetadataAccount::Malformed));
    data[last] = 2;
    assert!(matches!(decode_metadata_account(&data), MetadataAccount::Malformed));
    let mut data = vec![4u8];
    data.extend_from_slice(&metadata_record("Name", "SYM", "uri", 1, None, true, true));
    data[1 + 64 + 4] = 0xFF; // first byte of the name
    assert!(matches!(decode_metadata_account(&data), MetadataAccount::Malformed));
}

#[test]
fn creator_list_needs_every_creator() {
    let mut bytes = Vec::new();
    put(&mut bytes, &Some(vec![([1u8; 32], true, 100u8)]));
    let (creators, next) = read_creator_list(&bytes, 0).unwrap();
    assert_eq!(creators.unwrap().len(), 1);
    assert_eq!(next, bytes.len());
    bytes[1] = 2; // two creators announced, one present
    assert!(read_creator_list(&bytes, 0).is_none());
    bytes[1] = 1;
    bytes[5 + 32] = 3; // verified flag
    assert!(read_creator_list(&bytes, 0).is_none());
    assert_eq!(read_creator_list(&[0], 0).map(|(c, n)| (c.is_none(), n)), Some((true, 1)));
    assert!(read_creator_list(&[2], 0).is_none());
}

#[test]
fn extensions_alone() {
    assert_eq!(read_metadata_ext(&[1, 9], 0).map(|(e, n)| (e.edition_nonce, n)), Some((Some(9), 2)));
    assert!(read_metadata_ext(&[3], 0).is_none());
    let mut bytes = Vec::new();
    put(&mut bytes, &Option::<u8>::None);
    put(&mut bytes, &Some((false, [9u8; 32])));
    put(&mut bytes, &Option::<(u8, u64, u64)>::None);
    let (ext, next) = read_metadata_ext_v1_2(&bytes, 0).unwrap();
    assert_eq!(next, bytes.len());
    assert_eq!(ext.token_standard, None);
    assert!(!ext.collection.unwrap().verified);
    assert!(ext.uses.is_none());
    let cut = bytes.len() - 1;
    assert!(read_metadata_ext_v1_2(&bytes[..cut], 0).is_none());
}
