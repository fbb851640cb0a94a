use solana_program::program_option::COption;
use solana_program::program_pack::Pack;
use solana_snapshot_etl::token::{
    checked_multisig, decode_token, TokenData, TokenDecode, TokenMultisig,
};
use spl_token::state::{Account, AccountState, Mint, Multisig};

fn packed<T: Pack>(value: T) -> Vec<u8> {
    let mut out = vec![0u8; T::LEN];
    T::pack(value, &mut out).unwrap();
    out
}

fn key(b: u8) -> solana_program::pubkey::Pubkey {
    solana_program::pubkey::Pubkey::new_from_array([b; 32])
}

#[test]
fn mint_is_unpacked() {
    let data = packed(Mint {
        mint_authority: COption::Some(key(5)),
        supply: 1_000_000,
        decimals: 6,
        is_initialized: true,
        freeze_authority: COption::None,
    });
    assert_eq!(data.len(), 82);
    match decode_token(82, &data) {
        TokenDecode::Decoded(TokenData::Mint(mint)) => {
            assert_eq!(mint.mint_authority.unwrap().0, [5; 32]);
            assert_eq!(mint.supply, 1_000_000);
            assert_eq!(mint.decimals, 6);
            assert!(mint.is_initialized);
            assert!(mint.freeze_authority.is_none());
        }
        _ => panic!("mint was not decoded"),
    }
}

#[test]
fn token_account_is_unpacked() {
    let data = packed(Account {
        mint: key(1),
        owner: key(2),
        amount: u64::MAX,
        delegate: COption::Some(key(3)),
        state: AccountState::Frozen,
        is_native: COption::Some(2_039_280),
        delegated_amount: 17,
        close_authority: COption::Some(key(4)),
    });
    assert_eq!(data.len(), 165);
    match decode_token(165, &data) {
        TokenDecode::Decoded(TokenData::Account(account)) => {
            assert_eq!(account.mint.0, [1; 32]);
            assert_eq!(account.owner.0, [2; 32]);
            assert_eq!(account.amount, u64::MAX);
            assert_eq!(account.delegate.unwrap().0, [3; 32]);
            assert_eq!(account.state, 2);
            assert_eq!(account.is_native, Some(2_039_280));
            assert_eq!(account.delegated_amount, 17);
            assert_eq!(account.close_authority.unwrap().0, [4; 32]);
        }
        _ => panic!("token account was not decoded"),
    }
}

#[test]
fn multisig_is_unpacked() {
    let mut signers = [key(0); 11];
    for (i, signer) in signers.iter_mut().enumerate() {
        *signer = key(i as u8 + 1);
    }
    let data = packed(Multisig { m: 2, n: 3, is_initialized: true, signers });
    assert_eq!(data.len(), 355);
    match decode_token(355, &data) {
        TokenDecode::Decoded(TokenData::Multisig(multisig)) => {
            assert_eq!(multisig.m, 2);
            assert_eq!(multisig.n, 3);
            assert!(multisig.is_initialized);
            for (i, signer) in multisig.signers.iter().enumerate() {
                assert_eq!(signer.0, [i as u8 + 1; 32]);
            }
        }
        _ => panic!("multisig was not decoded"),
    }
}

#[test]
fn multisig_with_more_signers_than_slots_is_malformed() {
    let data = packed(Multisig { m: 2, n: 12, is_initialized: true, signers: [key(1); 11] });
    assert!(matches!(decode_token(355, &data), TokenDecode::Malformed));
    let full = packed(Multisig { m: 2, n: 11, is_initialized: true, signers: [key(1); 11] });
    assert!(matches!(decode_token(355, &full), TokenDecode::Decoded(TokenData::Multisig(_))));
    let signers = [solana_snapshot_etl::pubkey::Pubkey([1; 32]); 11];
    let twelve = TokenMultisig { m: 1, n: 12, is_initialized: true, signers };
    assert!(matches!(checked_multisig(Some(twelve)), TokenDecode::Malformed));
    assert!(matches!(checked_multisig(None), TokenDecode::Malformed));
}

#[test]
fn uninitialized_or_broken_token_data_is_malformed() {
    assert!(matches!(decode_token(82, &[0u8; 82]), TokenDecode::Malformed));
    assert!(matches!(decode_token(165, &[0u8; 165]), TokenDecode::Malformed));
    assert!(matches!(decode_token(355, &[0u8; 355]), TokenDecode::Malformed));
    let mut data = packed(Mint {
        mint_authority: COption::None,
        supply: 1,
        decimals: 0,
        is_initialized: true,
        freeze_authority: COption::None,
    });
    data[0] = 2; // tag of the mint authority
    assert!(matches!(decode_token(82, &data), TokenDecode::Malformed));
}

#[test]
fn other_sizes_are_not_token_data() {
    assert!(matches!(decode_token(0, &[]), TokenDecode::UnexpectedSize));
    assert!(matches!(decode_token(81, &[0u8; 81]), TokenDecode::UnexpectedSize));
    assert!(matches!(decode_token(166, &[0u8; 166]), TokenDecode::UnexpectedSize));
}

#[test]
fn declared_length_decides_the_kind() {
    let data = packed(Mint {
        mint_authority: COption::None,
        supply: 1,
        decimals: 0,
        is_initialized: true,
        freeze_authority: COption::None,
    });
    assert!(matches!(decode_token(165, &data), TokenDecode::Malformed));
    assert!(matches!(decode_token(83, &data), TokenDecode::UnexpectedSize));
}
